//! The vocabulary of the DAG: rounds, participants, units, and the
//! spec-level accounting of parent maps.

use vstd::prelude::*;

verus! {

/// An ordinal identifying a layer of the DAG.
pub type Round = usize;

/// An ordinal identifying a participant, in the range `[0, n_members)`.
pub type NodeIndex = usize;

/// A digest standing for a unit's cryptographic hash. Hashing itself is
/// performed outside this library; only the digest value flows through it.
pub type UnitHash = u64;

/// A vertex of a node's local DAG view: a unit produced for `round` by
/// `creator`, referencing one parent per creator index. `parents[i]` is the
/// hash of the round `round - 1` unit by creator `i`, if that unit is a
/// parent; a round-0 unit has no parents recorded at all.
pub struct Unit {
    pub hash: UnitHash,
    pub round: Round,
    pub creator: NodeIndex,
    pub parents: Vec<Option<UnitHash>>,
}

/// A notification emitted once per created unit, carrying the unit and its
/// parent hashes in creator-index order, for downstream signing and broadcast.
pub enum NotificationOut {
    CreatedPreUnit(Unit, Vec<UnitHash>),
}

/// The number of entries recorded in a parent map or candidate row.
pub open spec fn count_some(s: Seq<Option<UnitHash>>) -> nat
    decreases s.len(),
{
    if s.len() == 0 {
        0
    } else {
        count_some(s.drop_last()) + (if s.last() is Some {
            1nat
        } else {
            0nat
        })
    }
}

/// The recorded hashes of a row, in creator-index order.
pub open spec fn some_values(s: Seq<Option<UnitHash>>) -> Seq<UnitHash>
    decreases s.len(),
{
    if s.len() == 0 {
        Seq::empty()
    } else {
        some_values(s.drop_last()) + (match s.last() {
            Some(h) => seq![h],
            None => Seq::empty(),
        })
    }
}

/// A row never records more entries than it has slots.
pub proof fn lemma_count_le_len(s: Seq<Option<UnitHash>>)
    ensures
        count_some(s) <= s.len(),
    decreases s.len(),
{
    if s.len() > 0 {
        lemma_count_le_len(s.drop_last());
    }
}

/// A row with no entries counts zero.
pub proof fn lemma_count_all_none(s: Seq<Option<UnitHash>>)
    requires
        forall|i: int| 0 <= i < s.len() ==> s[i] is None,
    ensures
        count_some(s) == 0,
    decreases s.len(),
{
    if s.len() > 0 {
        assert(forall|i: int| 0 <= i < s.drop_last().len() ==> s.drop_last()[i] is None);
        lemma_count_all_none(s.drop_last());
    }
}

/// Extending a row by one slot extends its count by that slot's entry.
pub proof fn lemma_count_push(s: Seq<Option<UnitHash>>, v: Option<UnitHash>)
    ensures
        count_some(s.push(v)) == count_some(s) + (if v is Some {
            1nat
        } else {
            0nat
        }),
{
    assert(s.push(v).drop_last() =~= s);
}

/// Extending a row by one slot appends that slot's hash, if any, to its
/// recorded values.
pub proof fn lemma_some_values_push(s: Seq<Option<UnitHash>>, v: Option<UnitHash>)
    ensures
        some_values(s.push(v)) == some_values(s) + (match v {
            Some(h) => seq![h],
            None => Seq::<UnitHash>::empty(),
        }),
{
    assert(s.push(v).drop_last() =~= s);
}

/// Recording an entry in a vacant slot raises the count by exactly one.
pub proof fn lemma_count_update(s: Seq<Option<UnitHash>>, i: int, h: UnitHash)
    requires
        0 <= i < s.len(),
        s[i] is None,
    ensures
        count_some(s.update(i, Some(h))) == count_some(s) + 1,
    decreases s.len(),
{
    let t = s.update(i, Some(h));
    if i == s.len() - 1 {
        assert(t.drop_last() =~= s.drop_last());
    } else {
        assert(t.drop_last() =~= s.drop_last().update(i, Some(h)));
        lemma_count_update(s.drop_last(), i, h);
    }
}

/// A row's recorded values are exactly as many as its count.
pub proof fn lemma_some_values_len(s: Seq<Option<UnitHash>>)
    ensures
        some_values(s).len() == count_some(s),
    decreases s.len(),
{
    if s.len() > 0 {
        lemma_some_values_len(s.drop_last());
    }
}

} // verus!
