//! The pure state machine deciding when this node may create a unit and
//! which previously seen units qualify as its parents.

use vstd::prelude::*;

use crate::units::{
    count_some, lemma_count_all_none, lemma_count_le_len, lemma_count_push, lemma_count_update,
    lemma_some_values_len, lemma_some_values_push, some_values, NodeIndex, Round, Unit, UnitHash,
};

verus! {

/// The quorum bound: a unit of round `r > 0` must reference more than
/// `floor(2N/3)` distinct creators at round `r - 1`, so that any two honest
/// nodes' parent sets intersect sufficiently despite up to `floor((N-1)/3)`
/// Byzantine participants.
pub open spec fn quorum_threshold(n: int) -> int {
    2 * n / 3
}

/// The larger of a possibly absent recorded round and a new round.
pub open spec fn max_opt_round(o: Option<Round>, r: Round) -> Option<Round> {
    match o {
        Some(m) => if m >= r {
            Some(m)
        } else {
            Some(r)
        },
        None => Some(r),
    }
}

/// Per-round, per-creator store of the units known as parent candidates,
/// plus the bookkeeping of this node's own most recently created round.
/// Entries, once recorded, are never overwritten: first seen wins.
pub struct Creator {
    node_id: NodeIndex,
    n_members: usize,
    /// `candidates[r][i]` is the hash of the known unit by creator `i` at
    /// round `r`, if one was recorded.
    candidates: Vec<Vec<Option<UnitHash>>>,
    /// The highest round for which this node's own unit is recorded, if any.
    own_highest_round: Option<Round>,
}

impl Creator {
    /// This node's index.
    pub closed spec fn node(self) -> int {
        self.node_id as int
    }

    /// The total number of participants, `N`.
    pub closed spec fn member_count(self) -> int {
        self.n_members as int
    }

    /// The number of rounds for which a candidate row exists.
    pub closed spec fn rounds(self) -> int {
        self.candidates@.len() as int
    }

    /// The recorded hash for `(round r, creator i)`, if any.
    pub closed spec fn slot(self, r: int, i: int) -> Option<UnitHash> {
        if 0 <= r < self.candidates@.len() && 0 <= i < self.candidates@[r]@.len() {
            self.candidates@[r]@[i]
        } else {
            None
        }
    }

    /// The number of distinct creators with a recorded unit at round `r`.
    pub closed spec fn count_at(self, r: int) -> nat {
        if 0 <= r < self.candidates@.len() {
            count_some(self.candidates@[r]@)
        } else {
            0
        }
    }

    /// The highest round for which this node's own unit is recorded, if any.
    pub closed spec fn own_highest(self) -> Option<Round> {
        self.own_highest_round
    }

    /// Structural soundness: every row has one slot per member, and the
    /// own-round bookkeeping names exactly the highest recorded own unit.
    pub closed spec fn wf(self) -> bool {
        &&& self.node_id < self.n_members
        &&& self.n_members <= usize::MAX / 2
        &&& forall|r: int|
            0 <= r < self.candidates@.len() ==> (#[trigger] self.candidates@[r])@.len()
                == self.n_members
        &&& match self.own_highest_round {
            Some(m) => {
                &&& (m as int) < self.candidates@.len()
                &&& self.slot(m as int, self.node_id as int) is Some
                &&& forall|r: int|
                    m < r < self.candidates@.len() ==> #[trigger] self.slot(
                        r,
                        self.node_id as int,
                    ) is None
            },
            None => forall|r: int|
                0 <= r < self.candidates@.len() ==> #[trigger] self.slot(
                    r,
                    self.node_id as int,
                ) is None,
        }
    }

    /// Readiness for `round`: trivially ready for round 0; otherwise this
    /// node's own round `round - 1` unit must be recorded and the number of
    /// distinct creators recorded at round `round - 1` must exceed the quorum
    /// threshold.
    pub open spec fn can_create_spec(self, round: Round) -> bool {
        ||| round == 0
        ||| (self.slot(round - 1, self.node()) is Some && self.count_at(round - 1)
            > quorum_threshold(self.member_count()))
    }

    /// Whether this node has already produced a unit for a round `>= round`.
    pub open spec fn is_behind_spec(self, round: Round) -> bool {
        match self.own_highest() {
            Some(m) => m >= round,
            None => false,
        }
    }
}

/// How recording the unit `(round, idx, hash)` changes a creator state:
/// a duplicate of an already recorded pair changes nothing; otherwise exactly
/// that slot is filled, that round's count grows by one, and the own-round
/// bookkeeping advances when the unit is self-authored.
pub open spec fn records_unit(pre: Creator, post: Creator, round: Round, idx: int, hash: UnitHash) -> bool {
    &&& post.node() == pre.node()
    &&& post.member_count() == pre.member_count()
    &&& if pre.slot(round as int, idx) is Some {
        &&& forall|r: int, i: int| #[trigger] post.slot(r, i) == pre.slot(r, i)
        &&& forall|r: int| #[trigger] post.count_at(r) == pre.count_at(r)
        &&& post.own_highest() == pre.own_highest()
    } else {
        &&& post.slot(round as int, idx) == Some(hash)
        &&& forall|r: int, i: int|
            !(r == round && i == idx) ==> #[trigger] post.slot(r, i) == pre.slot(r, i)
        &&& post.count_at(round as int) == pre.count_at(round as int) + 1
        &&& forall|r: int| r != round ==> #[trigger] post.count_at(r) == pre.count_at(r)
        &&& post.own_highest() == (if idx == pre.node() {
            max_opt_round(pre.own_highest(), round)
        } else {
            pre.own_highest()
        })
    }
}

/// What `create_unit` hands back for `round`: a unit authored by this node
/// whose parent map is empty for round 0 and otherwise is exactly the row of
/// candidates recorded at `round - 1`, which then contains this node's own
/// round `round - 1` unit and more than `floor(2N/3)` entries in all, and the
/// parent hashes in creator-index order.
pub open spec fn created_unit_ok(
    pre: Creator,
    round: Round,
    hash: UnitHash,
    u: Unit,
    ph: Seq<UnitHash>,
) -> bool {
    &&& u.hash == hash
    &&& u.round == round
    &&& u.creator == pre.node()
    &&& u.parents@.len() == pre.member_count()
    &&& (round == 0 ==> forall|i: int| 0 <= i < u.parents@.len() ==> #[trigger] u.parents@[i] is None)
    &&& (round == 0 ==> count_some(u.parents@) == 0)
    &&& (round > 0 ==> forall|i: int|
        0 <= i < u.parents@.len() ==> #[trigger] u.parents@[i] == pre.slot(round - 1, i))
    &&& (round > 0 ==> u.parents@[pre.node()] == pre.slot(round - 1, pre.node())
        && u.parents@[pre.node()] is Some)
    &&& (round > 0 ==> quorum_threshold(pre.member_count()) < count_some(u.parents@)
        <= pre.member_count())
    &&& ph == some_values(u.parents@)
    &&& ph.len() == count_some(u.parents@)
}

/// A row with one vacant slot per member.
fn blank_row(n: usize) -> (row: Vec<Option<UnitHash>>)
    ensures
        row@.len() == n,
        forall|i: int| 0 <= i < n ==> row@[i] is None,
{
    let mut row: Vec<Option<UnitHash>> = Vec::new();
    while row.len() < n
        invariant
            row@.len() <= n,
            forall|i: int| 0 <= i < row@.len() ==> row@[i] is None,
        decreases n - row@.len(),
    {
        row.push(None);
    }
    row
}

/// A fresh vector with the same contents as `row`.
fn copy_row(row: &Vec<Option<UnitHash>>) -> (r: Vec<Option<UnitHash>>)
    ensures
        r@ == row@,
{
    let mut r: Vec<Option<UnitHash>> = Vec::new();
    let mut i: usize = 0;
    while i < row.len()
        invariant
            i <= row@.len(),
            r@ == row@.take(i as int),
        decreases row@.len() - i,
    {
        r.push(row[i]);
        proof {
            assert(row@.take(i as int + 1) =~= row@.take(i as int).push(row@[i as int]));
        }
        i += 1;
    }
    proof {
        assert(row@.take(row@.len() as int) =~= row@);
    }
    r
}

/// The number of recorded entries in `row`.
fn count_row(row: &Vec<Option<UnitHash>>) -> (c: usize)
    ensures
        c == count_some(row@),
{
    let mut c: usize = 0;
    let mut i: usize = 0;
    while i < row.len()
        invariant
            i <= row@.len(),
            c <= i,
            c == count_some(row@.take(i as int)),
        decreases row@.len() - i,
    {
        proof {
            assert(row@.take(i as int + 1) =~= row@.take(i as int).push(row@[i as int]));
            lemma_count_push(row@.take(i as int), row@[i as int]);
        }
        if row[i].is_some() {
            c = c + 1;
        }
        i += 1;
    }
    proof {
        assert(row@.take(row@.len() as int) =~= row@);
    }
    c
}

/// The recorded hashes of `row` in creator-index order.
fn collect_hashes(row: &Vec<Option<UnitHash>>) -> (ph: Vec<UnitHash>)
    ensures
        ph@ == some_values(row@),
{
    let mut ph: Vec<UnitHash> = Vec::new();
    let mut i: usize = 0;
    while i < row.len()
        invariant
            i <= row@.len(),
            ph@ == some_values(row@.take(i as int)),
        decreases row@.len() - i,
    {
        proof {
            assert(row@.take(i as int + 1) =~= row@.take(i as int).push(row@[i as int]));
            lemma_some_values_push(row@.take(i as int), row@[i as int]);
        }
        if let Some(h) = row[i] {
            ph.push(h);
            proof {
                assert(some_values(row@.take(i as int)).push(h) =~= some_values(
                    row@.take(i as int),
                ) + seq![h]);
            }
        } else {
            proof {
                assert(some_values(row@.take(i as int)) =~= some_values(row@.take(i as int))
                    + Seq::<UnitHash>::empty());
            }
        }
        i += 1;
    }
    proof {
        assert(row@.take(row@.len() as int) =~= row@);
    }
    ph
}

impl Creator {
    /// A fresh creator state for this node among `n_members` participants,
    /// knowing no units at all.
    pub fn new(node_id: NodeIndex, n_members: usize) -> (c: Creator)
        requires
            node_id < n_members,
            n_members <= usize::MAX / 2,
        ensures
            c.wf(),
            c.node() == node_id,
            c.member_count() == n_members,
            c.rounds() == 0,
            forall|r: int, i: int| #[trigger] c.slot(r, i) is None,
            forall|r: int| #[trigger] c.count_at(r) == 0,
            c.own_highest() is None,
    {
        Creator { node_id, n_members, candidates: Vec::new(), own_highest_round: None }
    }

    /// Grows the candidate store with vacant rows until round `r` has one.
    fn ensure_rows(&mut self, r: Round)
        requires
            old(self).wf(),
            r < usize::MAX,
        ensures
            final(self).wf(),
            final(self).node() == old(self).node(),
            final(self).member_count() == old(self).member_count(),
            final(self).rounds() >= old(self).rounds(),
            (r as int) < final(self).rounds(),
            forall|rr: int, i: int| #[trigger] final(self).slot(rr, i) == old(self).slot(rr, i),
            forall|rr: int| #[trigger] final(self).count_at(rr) == old(self).count_at(rr),
            final(self).own_highest() == old(self).own_highest(),
    {
        while self.candidates.len() <= r
            invariant
                self.wf(),
                r < usize::MAX,
                self.node() == old(self).node(),
                self.member_count() == old(self).member_count(),
                self.rounds() >= old(self).rounds(),
                forall|rr: int, i: int| #[trigger] self.slot(rr, i) == old(self).slot(rr, i),
                forall|rr: int| #[trigger] self.count_at(rr) == old(self).count_at(rr),
                self.own_highest() == old(self).own_highest(),
            decreases r + 1 - self.candidates@.len(),
        {
            let ghost pre = *self;
            let row = blank_row(self.n_members);
            let ghost rv = row@;
            self.candidates.push(row);
            proof {
                lemma_count_all_none(rv);
                assert forall|rr: int, i: int| #[trigger] self.slot(rr, i) == pre.slot(rr, i) by {
                    if rr == pre.candidates@.len() {
                        assert(self.slot(rr, i) is None);
                    }
                }
                assert forall|rr: int| #[trigger] self.count_at(rr) == pre.count_at(rr) by {
                    if rr == pre.candidates@.len() {
                        assert(self.count_at(rr) == count_some(rv));
                    }
                }
                assert(self.wf()) by {
                    match self.own_highest_round {
                        Some(m) => {
                            assert(self.slot(m as int, self.node_id as int) == pre.slot(
                                m as int,
                                self.node_id as int,
                            ));
                        },
                        None => {},
                    }
                }
            }
        }
    }

    /// Records `unit` as the known parent candidate for
    /// `(unit.round, unit.creator)`, unless an entry already exists for that
    /// pair; a duplicate is an idempotent no-op. A self-authored unit also
    /// advances the own-round bookkeeping consulted by `is_behind`.
    pub fn add_unit(&mut self, unit: &Unit)
        requires
            old(self).wf(),
            unit.creator < old(self).member_count(),
            unit.round < usize::MAX,
        ensures
            final(self).wf(),
            records_unit(*old(self), *final(self), unit.round, unit.creator as int, unit.hash),
    {
        let round = unit.round;
        let idx = unit.creator;
        self.ensure_rows(round);
        let ghost mid = *self;
        let row_ref = &self.candidates[round];
        let existing = row_ref[idx];
        if existing.is_some() {
            return ;
        }
        let mut row = copy_row(&self.candidates[round]);
        row.set(idx, Some(unit.hash));
        let ghost old_row = self.candidates@[round as int]@;
        self.candidates.set(round, row);
        proof {
            lemma_count_update(old_row, idx as int, unit.hash);
        }
        if idx == self.node_id {
            match self.own_highest_round {
                Some(m) => {
                    if round > m {
                        self.own_highest_round = Some(round);
                    }
                },
                None => {
                    self.own_highest_round = Some(round);
                },
            }
        }
        proof {
            assert forall|r: int, i: int|
                !(r == round && i == idx) implies #[trigger] self.slot(r, i) == mid.slot(r, i) by {
                if r == round {
                    assert(self.candidates@[r]@ == old_row.update(idx as int, Some(unit.hash)));
                }
            }
            assert forall|r: int| r != round implies #[trigger] self.count_at(r) == mid.count_at(
                r,
            ) by {}
            assert(self.slot(round as int, idx as int) == Some(unit.hash));
            assert(self.count_at(round as int) == mid.count_at(round as int) + 1);
            assert(self.wf()) by {
                match self.own_highest_round {
                    Some(m) => {
                        assert(self.slot(m as int, self.node_id as int) is Some);
                        assert forall|r: int|
                            m < r < self.candidates@.len() implies #[trigger] self.slot(
                            r,
                            self.node_id as int,
                        ) is None by {
                            assert(self.slot(r, self.node_id as int) == mid.slot(
                                r,
                                self.node_id as int,
                            ));
                        }
                    },
                    None => {},
                }
            }
        }
    }

    /// True iff this node may create its unit for `round`: always for round
    /// 0, and otherwise exactly when its own round `round - 1` unit is
    /// recorded and more than `floor(2N/3)` distinct creators are recorded at
    /// round `round - 1`.
    pub fn can_create(&self, round: Round) -> (r: bool)
        requires
            self.wf(),
        ensures
            r == self.can_create_spec(round),
    {
        if round == 0 {
            return true;
        }
        let prev = round - 1;
        if prev >= self.candidates.len() {
            return false;
        }
        let row = &self.candidates[prev];
        if row[self.node_id].is_none() {
            return false;
        }
        let cnt = count_row(row);
        cnt > 2 * self.n_members / 3
    }

    /// True iff this node has already produced a unit for a round `>= round`
    /// in this run, so that creation for `round` must not be repeated.
    pub fn is_behind(&self, round: Round) -> (r: bool)
        requires
            self.wf(),
        ensures
            r == self.is_behind_spec(round),
            r <==> exists|rr: int|
                round <= rr < self.rounds() && (#[trigger] self.slot(rr, self.node())) is Some,
    {
        match self.own_highest_round {
            Some(m) => {
                proof {
                    if m >= round {
                        assert(self.slot(m as int, self.node()) is Some);
                    } else {
                        assert forall|rr: int|
                            round <= rr < self.rounds() implies (#[trigger] self.slot(
                            rr,
                            self.node(),
                        )) is None by {}
                    }
                }
                m >= round
            },
            None => {
                proof {
                    assert forall|rr: int|
                        round <= rr < self.rounds() implies (#[trigger] self.slot(
                        rr,
                        self.node(),
                    )) is None by {}
                }
                false
            },
        }
    }

    /// Materializes this node's unit for `round`, assembling the parent set
    /// deterministically: empty for round 0, and otherwise exactly the
    /// candidates recorded at round `round - 1`, in creator-index order. The
    /// caller supplies the digest `hash` that will stand for the new unit
    /// (hashing is performed outside this library); the result is recorded as
    /// this node's own unit for `round`. Calling this without readiness is a
    /// contract violation, so readiness is required here.
    pub fn create_unit(&mut self, round: Round, hash: UnitHash) -> (res: (Unit, Vec<UnitHash>))
        requires
            old(self).wf(),
            old(self).can_create_spec(round),
            round < usize::MAX,
        ensures
            final(self).wf(),
            created_unit_ok(*old(self), round, hash, res.0, res.1@),
            records_unit(*old(self), *final(self), round, old(self).node(), hash),
    {
        let parents: Vec<Option<UnitHash>> = if round == 0 {
            let row = blank_row(self.n_members);
            proof {
                lemma_count_all_none(row@);
            }
            row
        } else {
            let row = copy_row(&self.candidates[round - 1]);
            proof {
                lemma_count_le_len(row@);
            }
            row
        };
        let parent_hashes = collect_hashes(&parents);
        proof {
            lemma_some_values_len(parents@);
        }
        let unit = Unit { hash, round, creator: self.node_id, parents };
        self.add_unit(&unit);
        (unit, parent_hashes)
    }
}

} // verus!
