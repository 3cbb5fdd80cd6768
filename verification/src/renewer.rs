//! The bot's long-running chores: renewing the cloud access token, and
//! starting that renewal once the cache is ready.

use vstd::prelude::*;

verus! {

/// How many renewal attempts a cycle makes at most.
pub const MAX_ATTEMPTS: u8 = 5;

/// Where the renewal loop stands: looking for the token slot, or renewing
/// after `failures` failed attempts in this cycle.
#[derive(Clone, Copy, Debug, PartialEq, Eq, Structural)]
pub enum RenewStage {
    CheckSlot,
    Renewing { failures: u8 },
}

/// What the surroundings report to the renewal loop.
#[derive(Clone, Copy, Debug, PartialEq, Eq, Structural)]
pub enum RenewEvent {
    /// Whether the shared token is present.
    SlotPresent(bool),
    /// Whether the renewal succeeded.
    Renewed(bool),
}

/// What the renewal loop asks for.
#[derive(Clone, Copy, Debug, PartialEq, Eq, Structural)]
pub enum RenewAction {
    CheckSlot,
    Renew,
    Sleep { seconds: u64 },
}

/// The loop's first request: look for the token.
pub fn renew_start() -> (r: (RenewStage, Vec<RenewAction>))
    ensures
        r.0 == RenewStage::CheckSlot,
        r.1@ == seq![RenewAction::CheckSlot],
{
    let mut a: Vec<RenewAction> = Vec::new();
    a.push(RenewAction::CheckSlot);
    (RenewStage::CheckSlot, a)
}

/// One step of the renewal loop: without the token it looks again at once;
/// with it, it renews; a success pauses 1000 s before the next cycle; a
/// failure pauses 3 s and retries, until the fifth failure, after which it
/// also pauses 1000 s before the next cycle. Other reports change nothing.
pub open spec fn renew_step_spec(stage: RenewStage, event: RenewEvent) -> (RenewStage, Seq<RenewAction>) {
    match (stage, event) {
        (RenewStage::CheckSlot, RenewEvent::SlotPresent(present)) =>
            if present {
                (RenewStage::Renewing { failures: 0 }, seq![RenewAction::Renew])
            } else {
                (RenewStage::CheckSlot, seq![RenewAction::CheckSlot])
            },
        (RenewStage::Renewing { failures }, RenewEvent::Renewed(ok)) =>
            if ok {
                (RenewStage::CheckSlot, seq![RenewAction::Sleep { seconds: 1000 }, RenewAction::CheckSlot])
            } else if failures + 1 < MAX_ATTEMPTS {
                (RenewStage::Renewing { failures: (failures + 1) as u8 },
                 seq![RenewAction::Sleep { seconds: 3 }, RenewAction::Renew])
            } else {
                (RenewStage::CheckSlot,
                 seq![RenewAction::Sleep { seconds: 3 }, RenewAction::Sleep { seconds: 1000 }, RenewAction::CheckSlot])
            },
        _ => (stage, Seq::<RenewAction>::empty()),
    }
}

/// A stage the loop can be in: fewer than five failures in the cycle.
pub open spec fn renew_stage_valid(stage: RenewStage) -> bool {
    match stage {
        RenewStage::CheckSlot => true,
        RenewStage::Renewing { failures } => failures < MAX_ATTEMPTS,
    }
}

/// Advances the renewal loop with the report `event`.
pub fn renew_step(stage: RenewStage, event: RenewEvent) -> (r: (RenewStage, Vec<RenewAction>))
    requires
        renew_stage_valid(stage),
    ensures
        (r.0, r.1@) == renew_step_spec(stage, event),
{
    let mut a: Vec<RenewAction> = Vec::new();
    let next = match (stage, event) {
        (RenewStage::CheckSlot, RenewEvent::SlotPresent(present)) => {
            if present {
                a.push(RenewAction::Renew);
                RenewStage::Renewing { failures: 0 }
            } else {
                a.push(RenewAction::CheckSlot);
                RenewStage::CheckSlot
            }
        },
        (RenewStage::Renewing { failures }, RenewEvent::Renewed(ok)) => {
            if ok {
                a.push(RenewAction::Sleep { seconds: 1000 });
                a.push(RenewAction::CheckSlot);
                RenewStage::CheckSlot
            } else if failures + 1 < MAX_ATTEMPTS {
                a.push(RenewAction::Sleep { seconds: 3 });
                a.push(RenewAction::Renew);
                RenewStage::Renewing { failures: failures + 1 }
            } else {
                a.push(RenewAction::Sleep { seconds: 3 });
                a.push(RenewAction::Sleep { seconds: 1000 });
                a.push(RenewAction::CheckSlot);
                RenewStage::CheckSlot
            }
        },
        _ => stage,
    };
    proof {
        assert(a@ =~= renew_step_spec(stage, event).1);
    }
    (next, a)
}

/// The attempts made so far in the current cycle.
pub open spec fn attempts_made(stage: RenewStage) -> nat {
    match stage {
        RenewStage::CheckSlot => 0,
        RenewStage::Renewing { failures } => (failures + 1) as nat,
    }
}

/// Whether an action list asks for a renewal.
pub open spec fn renews(actions: Seq<RenewAction>) -> bool {
    exists|i: int| 0 <= i < actions.len() && actions[i] == RenewAction::Renew
}

/// Whether an action list pauses for the long interval.
pub open spec fn pauses_long(actions: Seq<RenewAction>) -> bool {
    exists|i: int| 0 <= i < actions.len() && actions[i] == (RenewAction::Sleep { seconds: 1000 })
}

/// A cycle makes at most five renewal attempts: every step keeps the stage
/// valid, a step that asks for a renewal counts one more attempt in the
/// cycle (never more than five), and a step that ends the cycle pauses 1000 s
/// unless the token was missing.
pub proof fn lemma_renewal_attempts_bounded(stage: RenewStage, event: RenewEvent)
    requires
        renew_stage_valid(stage),
    ensures
        renew_stage_valid(renew_step_spec(stage, event).0),
        attempts_made(renew_step_spec(stage, event).0) <= MAX_ATTEMPTS,
        renews(renew_step_spec(stage, event).1) ==>
            attempts_made(renew_step_spec(stage, event).0) == attempts_made(stage) + 1,
        (stage is Renewing && renew_step_spec(stage, event).0 is CheckSlot) ==> pauses_long(renew_step_spec(stage, event).1),
{
    let r = renew_step_spec(stage, event);
    match (stage, event) {
        (RenewStage::CheckSlot, RenewEvent::SlotPresent(present)) => {
            if !present {
                assert(r.1[0] == RenewAction::CheckSlot);
            }
        },
        (RenewStage::Renewing { failures }, RenewEvent::Renewed(ok)) => {
            if ok {
                assert(r.1[0] == (RenewAction::Sleep { seconds: 1000 }));
                assert(!renews(r.1)) by {
                    assert(r.1[1] == RenewAction::CheckSlot);
                }
            } else if failures + 1 < MAX_ATTEMPTS {
            } else {
                assert(r.1[1] == (RenewAction::Sleep { seconds: 1000 }));
                assert(!renews(r.1)) by {
                    assert(r.1[0] == (RenewAction::Sleep { seconds: 3 }));
                    assert(r.1[2] == RenewAction::CheckSlot);
                }
            }
        },
        _ => {},
    }
}

/// The renewal loop after the outcomes `events`: its stage, and every action
/// asked for so far, from `renew_start` on, through `renew_step` on each
/// outcome in turn.
pub open spec fn renew_run(events: Seq<RenewEvent>) -> (RenewStage, Seq<RenewAction>)
    decreases events.len(),
{
    if events.len() == 0 {
        (RenewStage::CheckSlot, seq![RenewAction::CheckSlot])
    } else {
        let before = renew_run(events.drop_last());
        let next = renew_step_spec(before.0, events.last());
        (next.0, before.1 + next.1)
    }
}

/// The renewals asked for since the last long (1000 s) pause, or since the
/// start.
pub open spec fn renews_since_pause(actions: Seq<RenewAction>) -> nat
    decreases actions.len(),
{
    if actions.len() == 0 {
        0
    } else if actions.last() == (RenewAction::Sleep { seconds: 1000 }) {
        0
    } else if actions.last() == RenewAction::Renew {
        renews_since_pause(actions.drop_last()) + 1
    } else {
        renews_since_pause(actions.drop_last())
    }
}

/// Whether every renewal in `actions` comes either right after a check of
/// the token slot, as a cycle's first attempt when no renewal was asked for
/// since the last long pause, or right after a 3 s pause, as a retry within
/// a cycle.
pub open spec fn renewals_spaced(actions: Seq<RenewAction>) -> bool {
    forall|k: int| 0 <= k < actions.len() && #[trigger] actions[k] == RenewAction::Renew ==> {
        &&& k >= 1
        &&& (actions[k - 1] == RenewAction::CheckSlot && renews_since_pause(actions.take(k)) == 0)
            || (actions[k - 1] == (RenewAction::Sleep { seconds: 3 }) && renews_since_pause(actions.take(k)) >= 1)
    }
}

proof fn lemma_push_since_pause(s: Seq<RenewAction>, a: RenewAction)
    ensures
        renews_since_pause(s.push(a)) == (if a == (RenewAction::Sleep { seconds: 1000 }) {
            0
        } else if a == RenewAction::Renew {
            renews_since_pause(s) + 1
        } else {
            renews_since_pause(s)
        }),
{
    assert(s.push(a).drop_last() =~= s);
}

proof fn lemma_push_spaced(s: Seq<RenewAction>, a: RenewAction)
    requires
        renewals_spaced(s),
        a == RenewAction::Renew ==> s.len() >= 1 && (
            (s.last() == RenewAction::CheckSlot && renews_since_pause(s) == 0)
            || (s.last() == (RenewAction::Sleep { seconds: 3 }) && renews_since_pause(s) >= 1)),
    ensures
        renewals_spaced(s.push(a)),
{
    let t = s.push(a);
    assert forall|k: int| 0 <= k < t.len() && #[trigger] t[k] == RenewAction::Renew implies {
        &&& k >= 1
        &&& (t[k - 1] == RenewAction::CheckSlot && renews_since_pause(t.take(k)) == 0)
            || (t[k - 1] == (RenewAction::Sleep { seconds: 3 }) && renews_since_pause(t.take(k)) >= 1)
    } by {
        if k < s.len() {
            assert(s[k] == RenewAction::Renew);
            assert(t.take(k) =~= s.take(k));
        } else {
            assert(t.take(k) =~= s);
        }
    }
}

/// The renewal schedule over a whole run: at most five renewals are asked
/// for between two long (1000 s) pauses, as many as the current cycle has
/// made; a cycle's first attempt follows a check of the token slot and comes
/// only after the previous cycle's long pause, and every further attempt in
/// a cycle follows a 3 s pause. A successful renewal ends the cycle, and so
/// does the fifth failure: no renewal is asked for again before the next
/// long pause.
pub proof fn lemma_renewal_cycle(events: Seq<RenewEvent>)
    ensures
        renew_stage_valid(renew_run(events).0),
        renews_since_pause(renew_run(events).1) == attempts_made(renew_run(events).0),
        renews_since_pause(renew_run(events).1) <= MAX_ATTEMPTS,
        renewals_spaced(renew_run(events).1),
        renew_run(events).1.len() >= 1,
        renew_run(events).0 is CheckSlot ==> renew_run(events).1.last() == RenewAction::CheckSlot,
        renew_run(events).0 is Renewing ==> renew_run(events).1.last() == RenewAction::Renew,
    decreases events.len(),
{
    let ck = RenewAction::CheckSlot;
    let long = RenewAction::Sleep { seconds: 1000 };
    let short = RenewAction::Sleep { seconds: 3 };
    if events.len() == 0 {
        let s = seq![ck];
        assert(s =~= Seq::<RenewAction>::empty().push(ck));
        lemma_push_since_pause(Seq::<RenewAction>::empty(), ck);
        assert forall|k: int| 0 <= k < s.len() && #[trigger] s[k] == RenewAction::Renew implies false by {}
    } else {
        let prev = events.drop_last();
        lemma_renewal_cycle(prev);
        let (st, acts) = renew_run(prev);
        let e = events.last();
        let next = renew_step_spec(st, e);
        assert(renew_run(events) == (next.0, acts + next.1));
        match (st, e) {
            (RenewStage::CheckSlot, RenewEvent::SlotPresent(present)) => {
                if present {
                    assert(acts + next.1 =~= acts.push(RenewAction::Renew));
                    lemma_push_since_pause(acts, RenewAction::Renew);
                    lemma_push_spaced(acts, RenewAction::Renew);
                } else {
                    assert(acts + next.1 =~= acts.push(ck));
                    lemma_push_since_pause(acts, ck);
                    lemma_push_spaced(acts, ck);
                }
            },
            (RenewStage::Renewing { failures }, RenewEvent::Renewed(ok)) => {
                if ok {
                    assert(acts + next.1 =~= acts.push(long).push(ck));
                    lemma_push_since_pause(acts, long);
                    lemma_push_since_pause(acts.push(long), ck);
                    lemma_push_spaced(acts, long);
                    lemma_push_spaced(acts.push(long), ck);
                } else if failures + 1 < MAX_ATTEMPTS {
                    assert(acts + next.1 =~= acts.push(short).push(RenewAction::Renew));
                    lemma_push_since_pause(acts, short);
                    lemma_push_since_pause(acts.push(short), RenewAction::Renew);
                    lemma_push_spaced(acts, short);
                    lemma_push_spaced(acts.push(short), RenewAction::Renew);
                } else {
                    assert(acts + next.1 =~= acts.push(short).push(long).push(ck));
                    lemma_push_since_pause(acts, short);
                    lemma_push_since_pause(acts.push(short), long);
                    lemma_push_since_pause(acts.push(short).push(long), ck);
                    lemma_push_spaced(acts, short);
                    lemma_push_spaced(acts.push(short), long);
                    lemma_push_spaced(acts.push(short).push(long), ck);
                }
            },
            _ => {
                assert(acts + next.1 =~= acts);
            },
        }
    }
}

/// The bot's event-handler state: its own user, once known, and whether
/// the renewal loop is still to be started.
pub struct Handler {
    user_id: Option<u64>,
    run_loop: bool,
}

impl Handler {
    /// The bot's own user, once known.
    pub closed spec fn user(&self) -> Option<u64> {
        self.user_id
    }

    /// Whether the renewal loop is still to be started.
    pub closed spec fn pending_loop(&self) -> bool {
        self.run_loop
    }

    /// A fresh handler: user unknown, renewal loop still to start.
    pub fn new() -> (h: Handler)
        ensures
            h.user() is None,
            h.pending_loop(),
    {
        Handler { user_id: None, run_loop: true }
    }

    /// The bot's own user, once known.
    pub fn user_id(&self) -> (u: Option<u64>)
        ensures
            u == self.user(),
    {
        self.user_id
    }

    /// Records the bot's own user when the session is ready.
    pub fn ready(&mut self, user_id: u64)
        ensures
            final(self).user() == Some(user_id),
            final(self).pending_loop() == old(self).pending_loop(),
    {
        self.user_id = Some(user_id);
    }

    /// The cache is ready: whether to start the renewal loop now, which is
    /// the case only the first time.
    pub fn cache_ready(&mut self) -> (start: bool)
        ensures
            start == old(self).pending_loop(),
            !final(self).pending_loop(),
            final(self).user() == old(self).user(),
    {
        if self.run_loop {
            self.run_loop = false;
            true
        } else {
            false
        }
    }
}

/// How many times `n` cache-ready notices start the renewal loop, from a
/// handler whose loop is pending or not.
pub open spec fn loop_starts(pending: bool, n: nat) -> nat
    decreases n,
{
    if n == 0 {
        0
    } else {
        (if pending { 1nat } else { 0nat }) + loop_starts(false, (n - 1) as nat)
    }
}

/// The renewal loop is started at most once, however many times the cache
/// reports ready: `n` notices start it once from a fresh handler, and never
/// after it has been started.
pub proof fn lemma_loop_started_once(pending: bool, n: nat)
    ensures
        loop_starts(pending, n) <= 1,
        !pending ==> loop_starts(pending, n) == 0,
        pending && n > 0 ==> loop_starts(pending, n) == 1,
    decreases n,
{
    if n > 0 {
        lemma_loop_started_once(false, (n - 1) as nat);
    }
}

} // verus!
