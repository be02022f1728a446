//! The decisions of the coordinator: what to do with each event the workers send.
use vstd::prelude::*;
use crate::hex_codec::{hex_encode, lower_hex};
use crate::text::append_bytes;

verus! {

/// Least time between two progress reports, in milliseconds.
pub const REPORT_INTERVAL_MS: u128 = 100;

/// A found commit, confirmed by its worker.
#[derive(Debug, Clone, PartialEq, Eq)]
pub struct FoundCommit {
    /// Attempts the worker made since its last progress report.
    pub attempts: u64,
    /// The 20-byte identifier of the commit object.
    pub id: Vec<u8>,
    /// The body of the commit object, as the object store takes it.
    pub body: Vec<u8>,
}

/// What a worker sends.
#[derive(Debug, Clone, PartialEq, Eq)]
pub enum Event {
    /// This many more attempts were rejected.
    Progress(u64),
    /// An attempt was accepted.
    Found(FoundCommit),
}

/// What the coordinator does next.
#[derive(Debug, Clone, PartialEq, Eq)]
pub enum Action {
    /// Nothing; wait for the next event.
    Wait,
    /// Refresh the progress line with the running count of attempts.
    Report { attempts: u64 },
    /// Write the commit object, then move HEAD to it if asked to amend.
    Install { attempts: u64, id: Vec<u8>, body: Vec<u8>, move_head: bool },
}

/// The coordinator's state.
#[derive(Debug, Clone, Copy, PartialEq, Eq)]
pub struct CoordinatorState {
    /// Attempts counted so far, over all workers (saturating).
    pub attempts: u64,
    /// When progress was last reported, in milliseconds since the epoch.
    pub last_report_ms: u128,
    /// Whether a found commit has been installed.
    pub finished: bool,
    /// Whether HEAD is to move to the found commit.
    pub amend: bool,
}

/// The count after adding `n` attempts, held at the largest `u64`.
pub open spec fn add_attempts(total: u64, n: u64) -> u64 {
    if total + n > u64::MAX {
        u64::MAX
    } else {
        (total + n) as u64
    }
}

/// Whether enough time has passed since the last report.
pub open spec fn report_due(last_ms: u128, now_ms: u128) -> bool {
    now_ms > last_ms && now_ms - last_ms > REPORT_INTERVAL_MS
}

/// The state after handling `e` at time `now_ms`. Once finished, nothing changes.
pub open spec fn step(s: CoordinatorState, e: Event, now_ms: u128) -> CoordinatorState {
    if s.finished {
        s
    } else {
        match e {
            Event::Progress(n) => CoordinatorState {
                attempts: add_attempts(s.attempts, n),
                last_report_ms: if report_due(s.last_report_ms, now_ms) {
                    now_ms
                } else {
                    s.last_report_ms
                },
                ..s
            },
            Event::Found(f) => CoordinatorState {
                attempts: add_attempts(s.attempts, f.attempts),
                finished: true,
                ..s
            },
        }
    }
}

/// The action taken on `e` at time `now_ms`: the first found commit is
/// installed, and every event after it is ignored.
pub open spec fn step_action(s: CoordinatorState, e: Event, now_ms: u128) -> Action {
    if s.finished {
        Action::Wait
    } else {
        match e {
            Event::Progress(n) => if report_due(s.last_report_ms, now_ms) {
                Action::Report { attempts: add_attempts(s.attempts, n) }
            } else {
                Action::Wait
            },
            Event::Found(f) => Action::Install {
                attempts: add_attempts(s.attempts, f.attempts),
                id: f.id,
                body: f.body,
                move_head: s.amend,
            },
        }
    }
}

/// The actions taken on a sequence of timed events.
pub open spec fn run_actions(s: CoordinatorState, events: Seq<(Event, u128)>) -> Seq<Action>
    decreases events.len(),
{
    if events.len() == 0 {
        Seq::empty()
    } else {
        seq![step_action(s, events[0].0, events[0].1)] + run_actions(
            step(s, events[0].0, events[0].1),
            events.drop_first(),
        )
    }
}

/// Before anything is installed, a found commit is installed as it came, and
/// HEAD moves to it exactly when amending was asked for.
pub proof fn lemma_found_installs(s: CoordinatorState, f: FoundCommit, now_ms: u128)
    requires
        !s.finished,
    ensures
        step_action(s, Event::Found(f), now_ms) == (Action::Install {
            attempts: add_attempts(s.attempts, f.attempts),
            id: f.id,
            body: f.body,
            move_head: s.amend,
        }),
        step(s, Event::Found(f), now_ms).finished,
{
}

/// After a commit has been installed, no later event installs another.
proof fn lemma_finished_stays_quiet(s: CoordinatorState, events: Seq<(Event, u128)>)
    requires
        s.finished,
    ensures
        forall|i: int| 0 <= i < events.len() ==> #[trigger] run_actions(s, events)[i] is Wait,
        run_actions(s, events).len() == events.len(),
    decreases events.len(),
{
    if events.len() > 0 {
        lemma_finished_stays_quiet(step(s, events[0].0, events[0].1), events.drop_first());
        assert forall|i: int| 0 <= i < events.len() implies #[trigger] run_actions(s, events)[i] is Wait by {
            if i > 0 {
                assert(run_actions(s, events)[i] == run_actions(
                    step(s, events[0].0, events[0].1),
                    events.drop_first(),
                )[i - 1]);
            }
        }
    }
}

/// However the workers' events interleave, at most one of them leads to an
/// install: the first found commit; none does once one has been installed.
pub proof fn lemma_at_most_one_install(s: CoordinatorState, events: Seq<(Event, u128)>)
    ensures
        run_actions(s, events).len() == events.len(),
        forall|i: int, j: int|
            0 <= i < j < events.len() ==> !(#[trigger] run_actions(s, events)[i] is Install
                && #[trigger] run_actions(s, events)[j] is Install),
        s.finished ==> forall|i: int| 0 <= i < events.len() ==> !(#[trigger] run_actions(s, events)[i] is Install),
    decreases events.len(),
{
    if s.finished {
        lemma_finished_stays_quiet(s, events);
    } else if events.len() > 0 {
        let next = step(s, events[0].0, events[0].1);
        let rest = events.drop_first();
        lemma_at_most_one_install(next, rest);
        let acts = run_actions(s, events);
        assert(forall|i: int| 0 < i < events.len() ==> #[trigger] acts[i] == run_actions(next, rest)[i - 1]);
        if acts[0] is Install {
            assert(next.finished);
        }
    }
}

/// Drives the decisions of one search run.
pub struct Coordinator {
    state: CoordinatorState,
}

impl View for Coordinator {
    type V = CoordinatorState;

    closed spec fn view(&self) -> CoordinatorState {
        self.state
    }
}

impl Coordinator {
    /// A coordinator that has counted nothing, started at `now_ms`.
    pub fn new(amend: bool, now_ms: u128) -> (r: Coordinator)
        ensures
            r@ == (CoordinatorState { attempts: 0, last_report_ms: now_ms, finished: false, amend }),
    {
        Coordinator { state: CoordinatorState { attempts: 0, last_report_ms: now_ms, finished: false, amend } }
    }

    /// Attempts counted so far.
    pub fn attempts(&self) -> (r: u64)
        ensures
            r == self@.attempts,
    {
        self.state.attempts
    }

    /// Whether a found commit has been installed.
    pub fn is_finished(&self) -> (r: bool)
        ensures
            r == self@.finished,
    {
        self.state.finished
    }

    /// Handles one event received at `now_ms`.
    pub fn on_event(&mut self, event: Event, now_ms: u128) -> (r: Action)
        ensures
            final(self)@ == step(old(self)@, event, now_ms),
            r == step_action(old(self)@, event, now_ms),
    {
        if self.state.finished {
            return Action::Wait;
        }
        match event {
            Event::Progress(n) => {
                self.state.attempts = self.state.attempts.saturating_add(n);
                let last = self.state.last_report_ms;
                if now_ms > last && now_ms - last > REPORT_INTERVAL_MS {
                    self.state.last_report_ms = now_ms;
                    Action::Report { attempts: self.state.attempts }
                } else {
                    Action::Wait
                }
            },
            Event::Found(f) => {
                self.state.attempts = self.state.attempts.saturating_add(f.attempts);
                self.state.finished = true;
                Action::Install {
                    attempts: self.state.attempts,
                    id: f.id,
                    body: f.body,
                    move_head: self.state.amend,
                }
            },
        }
    }
}

/// `git-miner moved from ` in ASCII.
pub open spec fn move_label() -> Seq<u8> {
    seq![103u8, 105, 116, 45, 109, 105, 110, 101, 114, 32, 109, 111, 118, 101, 100, 32, 102, 114, 111, 109, 32]
}

/// The reason recorded when HEAD moves away from the commit `previous`.
pub fn move_reason(previous: &[u8]) -> (r: Vec<u8>)
    ensures
        r@ == move_label() + lower_hex(previous@),
{
    let label: [u8; 21] = [103, 105, 116, 45, 109, 105, 110, 101, 114, 32, 109, 111, 118, 101, 100, 32, 102, 114, 111, 109, 32];
    let mut r: Vec<u8> = Vec::new();
    append_bytes(&mut r, &label);
    let hex = hex_encode(previous);
    append_bytes(&mut r, hex.as_slice());
    assert(r@ =~= move_label() + lower_hex(previous@));
    r
}

} // verus!
