//! The round-by-round orchestration of unit creation, as a state machine
//! driven by events. The asynchronous shell around this library arms the
//! pacing timer, awaits the inbound stream and the cancellation signal, and
//! hands each observed event to [`Runner`]; every decision — when a round is
//! ready, when a round must be skipped, when the run must stop — is made
//! here.

use vstd::prelude::*;

use crate::creator::{created_unit_ok, records_unit, Creator};
use crate::units::{NodeIndex, Round, Unit, UnitHash};

verus! {

/// The configuration needed for the process creating new units. The pacing
/// schedule (round to duration) drives only the timers armed outside this
/// library, so it is held by the asynchronous shell, not here.
#[derive(Clone, Copy)]
pub struct Config {
    /// This node's index, in `[0, n_members)`.
    pub node_id: NodeIndex,
    /// The total number of participants.
    pub n_members: usize,
    /// The exclusive ceiling on rounds attempted.
    pub max_round: Round,
}

/// Why a run ends.
#[derive(Clone, Copy, PartialEq, Eq, Structural, Debug)]
pub enum Termination {
    /// The starting-round source closed without a value; fatal before any work.
    StartingRoundUnavailable,
    /// The inbound unit stream ended during a scheduling wait; fatal.
    InboundClosed,
    /// A creation notification could not be delivered; fatal.
    OutboundReceiverGone,
    /// External shutdown was requested; the run stops gracefully.
    Cancelled,
    /// All configured rounds were attempted; clean termination.
    RoundCeilingReached,
}

/// One observation made at a wait point of the scheduling loop.
pub enum WaitEvent {
    /// A previously validated unit arrived on the inbound stream.
    UnitReceived(Unit),
    /// The inbound stream closed; no further units will arrive.
    StreamClosed,
    /// The pacing timer for the current round elapsed.
    DelayElapsed,
    /// The cancellation signal fired.
    Exit,
}

/// What the scheduling loop must do after an event was absorbed.
#[derive(Clone, Copy, PartialEq, Eq, Structural, Debug)]
pub enum WaitStep {
    /// A gate is still closed: wait for the next event.
    KeepWaiting,
    /// Pacing has elapsed and the creator is ready: create the unit.
    Ready,
    /// The run must stop for the carried reason.
    Abort(Termination),
}

/// Sequences creation from a starting round up to (but excluding)
/// `max_round`. Two independent gates guard each round: the pacing gate
/// (`delay_passed`), opened by the pacing timer and never re-closed within a
/// round, and the readiness gate, re-evaluated against the creator after
/// every absorbed unit. The rounds for which units were handed out are
/// tracked in `emitted`, and stay strictly increasing.
pub struct Runner {
    creator: Creator,
    round: Round,
    max_round: Round,
    delay_passed: bool,
    halted: bool,
    emitted: Ghost<Seq<Round>>,
}

impl Runner {
    /// The creator state machine as it currently stands.
    pub closed spec fn creator_state(self) -> Creator {
        self.creator
    }

    /// The next round to attempt.
    pub closed spec fn round(self) -> Round {
        self.round
    }

    /// The exclusive ceiling on rounds attempted.
    pub closed spec fn max_round(self) -> Round {
        self.max_round
    }

    /// Whether the pacing gate for the current round is open.
    pub closed spec fn delay_passed(self) -> bool {
        self.delay_passed
    }

    /// Whether the run was aborted at a wait point.
    pub closed spec fn halted(self) -> bool {
        self.halted
    }

    /// The rounds for which creation events were handed out, in order.
    pub closed spec fn emitted(self) -> Seq<Round> {
        self.emitted@
    }

    /// The creator is sound, and the emitted rounds are strictly increasing
    /// and all below the next round to attempt.
    pub closed spec fn wf(self) -> bool {
        &&& self.creator.wf()
        &&& forall|i: int, j: int|
            #![trigger self.emitted@[i], self.emitted@[j]]
            0 <= i < j < self.emitted@.len() ==> self.emitted@[i] < self.emitted@[j]
        &&& forall|i: int| 0 <= i < self.emitted@.len() ==> #[trigger] self.emitted@[i] < self.round
    }

    /// A fresh run for this configuration, resuming from `starting_round`,
    /// with nothing known and nothing emitted.
    pub fn new(conf: Config, starting_round: Round) -> (r: Runner)
        requires
            conf.node_id < conf.n_members,
            conf.n_members <= usize::MAX / 2,
        ensures
            r.wf(),
            r.round() == starting_round,
            r.max_round() == conf.max_round,
            !r.halted(),
            !r.delay_passed(),
            r.emitted() == Seq::<Round>::empty(),
            r.creator_state().node() == conf.node_id,
            r.creator_state().member_count() == conf.n_members,
            r.creator_state().rounds() == 0,
            r.creator_state().own_highest() is None,
            forall|rr: int, i: int| #[trigger] r.creator_state().slot(rr, i) is None,
    {
        Runner {
            creator: Creator::new(conf.node_id, conf.n_members),
            round: starting_round,
            max_round: conf.max_round,
            delay_passed: false,
            halted: false,
            emitted: Ghost(Seq::empty()),
        }
    }

    /// True iff the round ceiling was reached: the run stops cleanly with
    /// `Termination::RoundCeilingReached` and attempts no further round.
    pub fn finished(&self) -> (r: bool)
        ensures
            r == (self.round() >= self.max_round()),
    {
        self.round >= self.max_round
    }

    /// The round the run is currently attempting, for arming its pacing
    /// timer.
    pub fn current_round(&self) -> (r: Round)
        ensures
            r == self.round(),
    {
        self.round
    }

    /// True iff the pacing gate for the current round is already open, so a
    /// further elapsing timer signals a stalled creation worth a diagnostic.
    pub fn pacing_open(&self) -> (r: bool)
        ensures
            r == self.delay_passed(),
    {
        self.delay_passed
    }

    /// True iff this node already produced a unit for the current round or a
    /// later one, so the scheduling wait — and creation — must be skipped.
    pub fn is_behind(&self) -> (r: bool)
        requires
            self.wf(),
        ensures
            r == self.creator_state().is_behind_spec(self.round()),
    {
        self.creator.is_behind(self.round)
    }

    /// Passes over a round this node is behind on: no wait happens and
    /// nothing is emitted for it.
    pub fn skip_round(&mut self)
        requires
            old(self).wf(),
            !old(self).halted(),
            old(self).round() < old(self).max_round(),
            old(self).creator_state().is_behind_spec(old(self).round()),
        ensures
            final(self).wf(),
            final(self).round() == old(self).round() + 1,
            final(self).max_round() == old(self).max_round(),
            final(self).halted() == old(self).halted(),
            final(self).emitted() == old(self).emitted(),
            final(self).creator_state() == old(self).creator_state(),
    {
        self.round = self.round + 1;
    }

    /// Closes the pacing gate for the current round; the shell arms the
    /// pacing timer alongside.
    pub fn begin_wait(&mut self)
        requires
            old(self).wf(),
            !old(self).halted(),
        ensures
            final(self).wf(),
            !final(self).delay_passed(),
            final(self).round() == old(self).round(),
            final(self).max_round() == old(self).max_round(),
            final(self).halted() == old(self).halted(),
            final(self).emitted() == old(self).emitted(),
            final(self).creator_state() == old(self).creator_state(),
    {
        self.delay_passed = false;
    }

    /// Absorbs one event observed at a wait point. A closed stream or the
    /// cancellation signal aborts the run at once; an arriving unit is
    /// unconditionally recorded; an elapsed pacing timer opens the pacing
    /// gate permanently for this round. The step is `Ready` exactly when both
    /// gates are open afterwards; nothing is ever emitted by waiting.
    pub fn wait_step(&mut self, event: WaitEvent) -> (step: WaitStep)
        requires
            old(self).wf(),
            !old(self).halted(),
            old(self).round() < old(self).max_round(),
            event matches WaitEvent::UnitReceived(u) ==> u.creator
                < old(self).creator_state().member_count() && u.round < usize::MAX,
        ensures
            final(self).wf(),
            final(self).round() == old(self).round(),
            final(self).max_round() == old(self).max_round(),
            final(self).emitted() == old(self).emitted(),
            event is StreamClosed ==> step == WaitStep::Abort(Termination::InboundClosed)
                && final(self).halted() && final(self).creator_state() == old(self).creator_state(),
            event is Exit ==> step == WaitStep::Abort(Termination::Cancelled) && final(self).halted() && final(self).creator_state() == old(self).creator_state(),
            !(event is StreamClosed) && !(event is Exit) ==> {
                &&& !final(self).halted()
                &&& final(self).delay_passed() == (old(self).delay_passed()
                    || event is DelayElapsed)
                &&& (event is DelayElapsed ==> final(self).creator_state() == old(self).creator_state())
                &&& (event matches WaitEvent::UnitReceived(u) ==> records_unit(
                    old(self).creator_state(),
                    final(self).creator_state(),
                    u.round,
                    u.creator as int,
                    u.hash,
                ))
                &&& (step == WaitStep::Ready <==> final(self).delay_passed() && final(self).creator_state().can_create_spec(old(self).round()))
                &&& (step == WaitStep::Ready || step == WaitStep::KeepWaiting)
            },
    {
        match event {
            WaitEvent::StreamClosed => {
                self.halted = true;
                return WaitStep::Abort(Termination::InboundClosed);
            },
            WaitEvent::Exit => {
                self.halted = true;
                return WaitStep::Abort(Termination::Cancelled);
            },
            WaitEvent::DelayElapsed => {
                self.delay_passed = true;
            },
            WaitEvent::UnitReceived(u) => {
                self.creator.add_unit(&u);
            },
        }
        if self.delay_passed && self.creator.can_create(self.round) {
            WaitStep::Ready
        } else {
            WaitStep::KeepWaiting
        }
    }

    /// Materializes the unit for the current round, records the emission and
    /// advances to the next round. The caller supplies the digest standing
    /// for the new unit. Succeeds exactly when the run is still live, below
    /// its ceiling, and the creator is ready for the current round; on `None`
    /// nothing changes and nothing is emitted.
    pub fn create_next(&mut self, hash: UnitHash) -> (res: Option<(Unit, Vec<UnitHash>)>)
        requires
            old(self).wf(),
        ensures
            final(self).wf(),
            res is Some <==> (!old(self).halted() && old(self).round() < old(self).max_round()
                && old(self).creator_state().can_create_spec(old(self).round())),
            res is None ==> *final(self) == *old(self),
            res matches Some(p) ==> {
                &&& created_unit_ok(old(self).creator_state(), old(self).round(), hash, p.0, p.1@)
                &&& records_unit(
                    old(self).creator_state(),
                    final(self).creator_state(),
                    old(self).round(),
                    old(self).creator_state().node(),
                    hash,
                )
                &&& final(self).round() == old(self).round() + 1
                &&& final(self).max_round() == old(self).max_round()
                &&& final(self).halted() == old(self).halted()
                &&& final(self).emitted() == old(self).emitted().push(old(self).round())
            },
    {
        if self.halted {
            return None;
        }
        if self.round >= self.max_round {
            return None;
        }
        if !self.creator.can_create(self.round) {
            return None;
        }
        let ghost pre = *old(self);
        let (unit, parent_hashes) = self.creator.create_unit(self.round, hash);
        self.emitted = Ghost(self.emitted@.push(self.round));
        self.round = self.round + 1;
        proof {
            assert forall|i: int, j: int|
                #![trigger self.emitted@[i], self.emitted@[j]]
                0 <= i < j < self.emitted@.len() implies self.emitted@[i] < self.emitted@[j] by {
                if j == self.emitted@.len() - 1 {
                    assert(pre.emitted@[i] < pre.round);
                }
            }
            assert forall|i: int| 0 <= i < self.emitted@.len() implies #[trigger] self.emitted@[i]
                < self.round by {
                if i < self.emitted@.len() - 1 {
                    assert(pre.emitted@[i] < pre.round);
                }
            }
        }
        Some((unit, parent_hashes))
    }
}

/// No two creation events are ever emitted for the same round within a
/// single run.
pub proof fn lemma_emitted_rounds_distinct(r: Runner, i: int, j: int)
    requires
        r.wf(),
        0 <= i < r.emitted().len(),
        0 <= j < r.emitted().len(),
        i != j,
    ensures
        r.emitted()[i] != r.emitted()[j],
{
}

/// The rounds for which creation events are emitted form a strictly
/// increasing sequence.
pub proof fn lemma_emitted_strictly_increasing(r: Runner, i: int, j: int)
    requires
        r.wf(),
        0 <= i < j < r.emitted().len(),
    ensures
        r.emitted()[i] < r.emitted()[j],
{
}

} // verus!
