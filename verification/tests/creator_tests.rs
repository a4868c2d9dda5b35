use unit_creation::creator::Creator;
use unit_creation::units::Unit;

fn unit(hash: u64, round: usize, creator: usize) -> Unit {
    Unit { hash, round, creator, parents: Vec::new() }
}

#[test]
fn round_zero_is_always_ready() {
    let creator = Creator::new(0, 4);
    assert!(creator.can_create(0));
    assert!(!creator.can_create(1));
}

#[test]
fn round_zero_unit_has_empty_parents_despite_known_units() {
    let mut creator = Creator::new(0, 4);
    creator.add_unit(&unit(11, 0, 1));
    creator.add_unit(&unit(12, 0, 2));
    creator.add_unit(&unit(13, 0, 3));
    let (u, parent_hashes) = creator.create_unit(0, 100);
    assert_eq!(u.round, 0);
    assert_eq!(u.creator, 0);
    assert_eq!(u.hash, 100);
    assert_eq!(u.parents.len(), 4);
    assert!(u.parents.iter().all(|p| p.is_none()));
    assert_eq!(parent_hashes, Vec::<u64>::new());
}

#[test]
fn readiness_needs_own_previous_unit() {
    let mut creator = Creator::new(0, 4);
    creator.add_unit(&unit(11, 0, 1));
    creator.add_unit(&unit(12, 0, 2));
    creator.add_unit(&unit(13, 0, 3));
    // Three distinct creators exceed floor(8/3) = 2, but the node's own
    // round-0 unit is still missing.
    assert!(!creator.can_create(1));
    creator.add_unit(&unit(100, 0, 0));
    assert!(creator.can_create(1));
}

#[test]
fn readiness_needs_more_than_two_thirds() {
    // N = 7: the threshold is floor(14/3) = 4, so 4 creators are not enough
    // and 5 are.
    let mut creator = Creator::new(0, 7);
    creator.add_unit(&unit(100, 0, 0));
    creator.add_unit(&unit(11, 0, 1));
    creator.add_unit(&unit(12, 0, 2));
    creator.add_unit(&unit(13, 0, 3));
    assert!(!creator.can_create(1));
    creator.add_unit(&unit(14, 0, 4));
    assert!(creator.can_create(1));
}

#[test]
fn parents_are_previous_round_units_in_creator_order() {
    let mut creator = Creator::new(1, 4);
    creator.add_unit(&unit(30, 0, 3));
    creator.add_unit(&unit(10, 0, 0));
    creator.add_unit(&unit(20, 0, 1));
    assert!(creator.can_create(1));
    let (u, parent_hashes) = creator.create_unit(1, 777);
    assert_eq!(u.round, 1);
    assert_eq!(u.creator, 1);
    // Ordered by creator index, not by arrival: creator 2 contributed nothing.
    assert_eq!(u.parents, vec![Some(10), Some(20), None, Some(30)]);
    assert_eq!(parent_hashes, vec![10, 20, 30]);
    // The entry for this node is its own round-0 unit hash.
    assert_eq!(u.parents[1], Some(20));
}

#[test]
fn parent_count_stays_within_quorum_and_membership_bounds() {
    let mut creator = Creator::new(0, 4);
    creator.add_unit(&unit(100, 0, 0));
    creator.add_unit(&unit(11, 0, 1));
    creator.add_unit(&unit(12, 0, 2));
    creator.add_unit(&unit(13, 0, 3));
    let (_, parent_hashes) = creator.create_unit(1, 200);
    let n = 4;
    let threshold = 2 * n / 3;
    assert!(parent_hashes.len() > threshold);
    assert!(parent_hashes.len() <= n);
}

#[test]
fn first_recorded_unit_wins() {
    let mut creator = Creator::new(0, 4);
    creator.add_unit(&unit(100, 0, 0));
    creator.add_unit(&unit(11, 0, 1));
    creator.add_unit(&unit(12, 0, 2));
    // A second unit for the pair (round 0, creator 1) is ignored.
    creator.add_unit(&unit(99, 0, 1));
    let (u, parent_hashes) = creator.create_unit(1, 200);
    assert_eq!(u.parents[1], Some(11));
    assert_eq!(parent_hashes, vec![100, 11, 12]);
}

#[test]
fn own_created_unit_counts_for_the_next_round() {
    let mut creator = Creator::new(0, 4);
    creator.add_unit(&unit(11, 0, 1));
    creator.add_unit(&unit(12, 0, 2));
    let (_, _) = creator.create_unit(0, 100);
    // Own round-0 unit was recorded by creation: three creators are known.
    assert!(creator.can_create(1));
    let (u, parent_hashes) = creator.create_unit(1, 200);
    assert_eq!(u.parents[0], Some(100));
    assert_eq!(parent_hashes, vec![100, 11, 12]);
}

#[test]
fn is_behind_tracks_highest_self_authored_round() {
    let mut creator = Creator::new(0, 4);
    assert!(!creator.is_behind(0));
    // A self-authored unit arriving on the stream counts as already created.
    creator.add_unit(&unit(55, 2, 0));
    assert!(creator.is_behind(0));
    assert!(creator.is_behind(1));
    assert!(creator.is_behind(2));
    assert!(!creator.is_behind(3));
    // Units by other nodes do not make this node behind.
    creator.add_unit(&unit(66, 5, 1));
    assert!(!creator.is_behind(3));
}

#[test]
fn creating_records_own_round_for_is_behind() {
    let mut creator = Creator::new(2, 4);
    assert!(!creator.is_behind(0));
    let (_, _) = creator.create_unit(0, 100);
    assert!(creator.is_behind(0));
    assert!(!creator.is_behind(1));
}
