//! The rule that decides, after each thing that happens to an attempt, what
//! to do next: start, poll, wait, retry, hand over or give up.
//!
//! The caller performs each action and reports what came of it. Attempts
//! follow one another: a failed one is torn down before the next starts.

use crate::conf::Conf;
use crate::error::Error;
use crate::launch::check_executable;
use crate::logs::{announces_ready, is_ready_line};
use vstd::prelude::*;

verus! {

/// How long an attempt may take to announce readiness, in milliseconds.
pub const DEADLINE_MS: u64 = 3000;

/// How long to wait before polling again, in milliseconds.
pub const BACKOFF_MS: u64 = 10;

/// Where the supervision of the attempts stands.
#[derive(Debug, Clone, Copy, PartialEq, Eq, Structural)]
pub enum Phase {
    /// An attempt is to be started.
    Spawning,
    /// The process runs and its output is watched.
    Polling,
    /// The process announced readiness and is kept.
    Ready,
    /// Every attempt failed.
    Exhausted,
}

/// What the caller is to do next.
#[derive(Debug, Clone, Copy, PartialEq, Eq, Structural)]
pub enum Action {
    /// Start the first attempt: a port, a fresh working directory, the
    /// process and its two pumps.
    Spawn,
    /// Try to receive a line without blocking.
    Poll,
    /// Wait `BACKOFF_MS`, then try to receive a line.
    Backoff,
    /// Tear the attempt down (kill the process, stop its pumps, remove its
    /// working directory), then start another with a new port and directory.
    Retry,
    /// Tear the attempt down and report that the setup is exhausted.
    GiveUp,
    /// Hand the process, its directory and its log channel to the handle.
    Done,
}

/// What a non-blocking receive on the log channel gave.
#[derive(Debug)]
pub enum Received {
    /// A captured line.
    Line(String),
    /// Nothing is buffered, and the streams are still open.
    Empty,
    /// Nothing is buffered, and both streams have closed: the process is
    /// gone without having announced readiness.
    Closed,
}

/// One thing that can happen to an attempt.
#[derive(Debug)]
pub enum Event {
    /// The start of the process succeeded or failed.
    Started(bool),
    /// A receive was tried, so many milliseconds after the start.
    Polled(Received, u64),
}

/// The state of the supervision.
#[derive(Debug, Clone, Copy, PartialEq, Eq, Structural)]
pub struct Gate {
    /// Where the supervision stands.
    pub phase: Phase,
    /// How many attempts are allowed.
    pub attempts: u8,
    /// How many attempts were begun, each with a working directory of its own.
    pub started: u8,
    /// How many attempts were torn down, each with its working directory.
    pub discarded: u8,
}

impl Gate {
    /// What holds of every state that the rule reaches: no attempt beyond the
    /// allowed ones, all but the current attempt torn down, and after the
    /// last failure all of them.
    pub open spec fn wf(self) -> bool {
        &&& self.started <= self.attempts
        &&& match self.phase {
            Phase::Exhausted => self.started == self.attempts && self.discarded == self.started,
            _ => self.started >= 1 && self.discarded + 1 == self.started,
        }
    }

    /// The state before anything was done.
    pub open spec fn start_spec(attempts: u8) -> (Gate, Action) {
        if attempts == 0 {
            (Gate { phase: Phase::Exhausted, attempts, started: 0, discarded: 0 }, Action::GiveUp)
        } else {
            (Gate { phase: Phase::Spawning, attempts, started: 1, discarded: 0 }, Action::Spawn)
        }
    }

    /// The current attempt has failed: another one where any is left, else
    /// the end.
    pub open spec fn failed(self) -> (Gate, Action) {
        if self.started < self.attempts {
            (
                Gate {
                    phase: Phase::Spawning,
                    attempts: self.attempts,
                    started: (self.started + 1) as u8,
                    discarded: (self.discarded + 1) as u8,
                },
                Action::Retry,
            )
        } else {
            (
                Gate {
                    phase: Phase::Exhausted,
                    attempts: self.attempts,
                    started: self.started,
                    discarded: (self.discarded + 1) as u8,
                },
                Action::GiveUp,
            )
        }
    }

    /// After the start of the process was tried.
    pub open spec fn spawned_spec(self, ok: bool) -> (Gate, Action) {
        if ok {
            (Gate { phase: Phase::Polling, ..self }, Action::Poll)
        } else {
            self.failed()
        }
    }

    /// After a receive was tried, `elapsed_ms` after the start. Past the
    /// deadline the attempt has failed, whatever was received.
    pub open spec fn polled_spec(self, received: Received, elapsed_ms: u64) -> (Gate, Action) {
        if elapsed_ms > DEADLINE_MS {
            self.failed()
        } else {
            match received {
                Received::Line(line) if announces_ready(line@) => (
                    Gate { phase: Phase::Ready, ..self },
                    Action::Done,
                ),
                Received::Closed => self.failed(),
                _ => (self, Action::Backoff),
            }
        }
    }

    /// Whether the event belongs to the phase: the outcome of a start while
    /// spawning, a receive while polling.
    pub open spec fn accepts(self, event: Event) -> bool {
        match event {
            Event::Started(_) => self.phase == Phase::Spawning,
            Event::Polled(_, _) => self.phase == Phase::Polling,
        }
    }

    /// The action that follows `event`, where the event belongs to the phase.
    pub open spec fn action_after(self, event: Event) -> Action {
        match event {
            Event::Started(ok) => self.spawned_spec(ok).1,
            Event::Polled(received, elapsed_ms) => self.polled_spec(received, elapsed_ms).1,
        }
    }

    /// After `event`. An event that does not belong to the phase changes
    /// nothing.
    pub open spec fn apply(self, event: Event) -> Gate {
        match event {
            Event::Started(ok) => if self.phase == Phase::Spawning {
                self.spawned_spec(ok).0
            } else {
                self
            },
            Event::Polled(received, elapsed_ms) => if self.phase == Phase::Polling {
                self.polled_spec(received, elapsed_ms).0
            } else {
                self
            },
        }
    }

    /// After all of `events`, in their order.
    pub open spec fn run(self, events: Seq<Event>) -> Gate
        decreases events.len(),
    {
        if events.len() == 0 {
            self
        } else {
            self.run(events.drop_last()).apply(events.last())
        }
    }

    /// Whether the action is the one that the phase calls for.
    pub open spec fn owes(self, action: Action) -> bool {
        match action {
            Action::Spawn | Action::Retry => self.phase == Phase::Spawning,
            Action::Poll | Action::Backoff => self.phase == Phase::Polling,
            Action::Done => self.phase == Phase::Ready,
            Action::GiveUp => self.phase == Phase::Exhausted,
        }
    }

    /// How the supervision ended, if it has: with a process to hand over, or
    /// with the failure that names the attempts that were allowed.
    pub open spec fn verdict_spec(self) -> Option<Result<(), Error>> {
        match self.phase {
            Phase::Ready => Some(Ok(())),
            Phase::Exhausted => Some(Err(Error::SetupExhausted(self.attempts))),
            _ => None,
        }
    }

    /// How the supervision ended: nothing while an attempt is under way,
    /// success once a process is ready, and the exhausted setup after the
    /// last failure.
    pub fn verdict(&self) -> (r: Option<Result<(), Error>>)
        ensures
            r == self.verdict_spec(),
    {
        match self.phase {
            Phase::Ready => Some(Ok(())),
            Phase::Exhausted => Some(Err(Error::SetupExhausted(self.attempts))),
            _ => None,
        }
    }

    /// Begins the supervision of up to `attempts` attempts. With none
    /// allowed there is nothing to try.
    pub fn start(attempts: u8) -> (r: (Gate, Action))
        ensures
            r == Gate::start_spec(attempts),
            r.0.wf(),
            r.0.owes(r.1),
    {
        if attempts == 0 {
            (Gate { phase: Phase::Exhausted, attempts, started: 0, discarded: 0 }, Action::GiveUp)
        } else {
            (Gate { phase: Phase::Spawning, attempts, started: 1, discarded: 0 }, Action::Spawn)
        }
    }

    /// Begins the supervision for `conf`, whose executable lies at `exe` and
    /// exists and is a regular file as `exists` and `is_file` report it.
    ///
    /// An executable that cannot be used is a fault of the configuration: it
    /// is reported at once and no attempt is begun. Otherwise the attempts
    /// that `conf` allows are begun as `start` says.
    pub fn begin(conf: &Conf, exe: &str, exists: bool, is_file: bool) -> (r: Result<
        (Gate, Action),
        Error,
    >)
        ensures
            exists && is_file ==> r == Ok::<(Gate, Action), Error>(
                Gate::start_spec(conf.attempts),
            ),
            !(exists && is_file) ==> (r matches Err(Error::ConfigurationInvalid(p)) && p@ == exe@),
            r matches Ok(first) ==> first.0.wf() && first.0.owes(first.1),
    {
        match check_executable(exe, exists, is_file) {
            Ok(_) => Ok(Gate::start(conf.attempts)),
            Err(e) => Err(e),
        }
    }

    fn fail(self) -> (r: (Gate, Action))
        requires
            self.wf(),
            self.phase == Phase::Spawning || self.phase == Phase::Polling,
        ensures
            r == self.failed(),
            r.0.wf(),
            r.0.owes(r.1),
    {
        if self.started < self.attempts {
            (
                Gate {
                    phase: Phase::Spawning,
                    attempts: self.attempts,
                    started: self.started + 1,
                    discarded: self.discarded + 1,
                },
                Action::Retry,
            )
        } else {
            (
                Gate {
                    phase: Phase::Exhausted,
                    attempts: self.attempts,
                    started: self.started,
                    discarded: self.discarded + 1,
                },
                Action::GiveUp,
            )
        }
    }

    /// Reports whether the process could be started. A process that started
    /// is polled; a failed start uses up the attempt.
    pub fn spawned(self, ok: bool) -> (r: (Gate, Action))
        requires
            self.wf(),
            self.phase == Phase::Spawning,
        ensures
            r == self.spawned_spec(ok),
            r.0.wf(),
            r.0.owes(r.1),
    {
        if ok {
            (
                Gate {
                    phase: Phase::Polling,
                    attempts: self.attempts,
                    started: self.started,
                    discarded: self.discarded,
                },
                Action::Poll,
            )
        } else {
            self.fail()
        }
    }

    /// Reports what a receive gave, `elapsed_ms` after the process started.
    ///
    /// Once more than `DEADLINE_MS` have passed the attempt has failed,
    /// whatever was received: a marker that comes too late does not count.
    /// Within the deadline a line with the readiness marker ends the
    /// supervision with success, closed streams fail the attempt at once,
    /// and otherwise the caller waits and polls again.
    pub fn polled(self, received: &Received, elapsed_ms: u64) -> (r: (Gate, Action))
        requires
            self.wf(),
            self.phase == Phase::Polling,
        ensures
            r == self.polled_spec(*received, elapsed_ms),
            r.0.wf(),
            r.0.owes(r.1),
    {
        if elapsed_ms > DEADLINE_MS {
            return self.fail();
        }
        let ready = match received {
            Received::Line(line) => is_ready_line(line.as_str()),
            _ => false,
        };
        let closed = match received {
            Received::Closed => true,
            _ => false,
        };
        if ready {
            (
                Gate {
                    phase: Phase::Ready,
                    attempts: self.attempts,
                    started: self.started,
                    discarded: self.discarded,
                },
                Action::Done,
            )
        } else if closed {
            self.fail()
        } else {
            (self, Action::Backoff)
        }
    }

    /// Reports `event` and gives the next state with the action to perform.
    /// An event that does not belong to the phase changes nothing and asks for
    /// nothing.
    pub fn step(self, event: &Event) -> (r: (Gate, Option<Action>))
        requires
            self.wf(),
        ensures
            r.0 == self.apply(*event),
            r.0.wf(),
            self.accepts(*event) ==> r.1 == Some(self.action_after(*event)) && r.0.owes(
                self.action_after(*event),
            ),
            !self.accepts(*event) ==> r.1 is None,
    {
        match event {
            Event::Started(ok) => {
                if self.phase == Phase::Spawning {
                    let (gate, action) = self.spawned(*ok);
                    (gate, Some(action))
                } else {
                    (self, None)
                }
            },
            Event::Polled(received, elapsed_ms) => {
                if self.phase == Phase::Polling {
                    let (gate, action) = self.polled(received, *elapsed_ms);
                    (gate, Some(action))
                } else {
                    (self, None)
                }
            },
        }
    }

    /// Where the supervision of up to `attempts` attempts stands after the
    /// recorded `events`, reported in their order from the beginning.
    pub fn replay(attempts: u8, events: &Vec<Event>) -> (r: Gate)
        ensures
            r == Gate::start_spec(attempts).0.run(events@),
            r.wf(),
    {
        let (mut gate, _) = Gate::start(attempts);
        let mut i: usize = 0;
        while i < events.len()
            invariant
                i <= events.len(),
                gate.wf(),
                gate == Gate::start_spec(attempts).0.run(events@.take(i as int)),
            decreases events.len() - i,
        {
            let (next, _) = gate.step(&events[i]);
            proof {
                assert(events@.take(i + 1).drop_last() =~= events@.take(i as int));
            }
            gate = next;
            i += 1;
        }
        proof {
            assert(events@.take(i as int) =~= events@);
        }
        gate
    }
}

/// Whether the event is a captured line that announces readiness within
/// the deadline.
pub open spec fn announces_in_time(event: Event) -> bool {
    match event {
        Event::Polled(Received::Line(line), elapsed_ms) => announces_ready(line@) && elapsed_ms
            <= DEADLINE_MS,
        _ => false,
    }
}

/// Every event keeps the state well-formed, so at no time have more attempts
/// been begun than are allowed, and all but the current one are torn down.
pub proof fn run_keeps_wf(gate: Gate, events: Seq<Event>)
    requires
        gate.wf(),
    ensures
        gate.run(events).wf(),
        gate.run(events).attempts == gate.attempts,
    decreases events.len(),
{
    if events.len() > 0 {
        run_keeps_wf(gate, events.drop_last());
    }
}

/// A process that never logs the readiness marker within a deadline is
/// never handed over, and once the supervision has given up, exactly as
/// many attempts were begun and torn down as were allowed, and the failure
/// names that number: no working directory is left.
pub proof fn run_without_marker_exhausts(attempts: u8, events: Seq<Event>)
    requires
        forall|i: int| 0 <= i < events.len() ==> !announces_in_time(#[trigger] events[i]),
    ensures
        Gate::start_spec(attempts).0.run(events).phase != Phase::Ready,
        Gate::start_spec(attempts).0.run(events).phase == Phase::Exhausted ==> {
            &&& Gate::start_spec(attempts).0.run(events).started == attempts
            &&& Gate::start_spec(attempts).0.run(events).discarded == attempts
            &&& Gate::start_spec(attempts).0.run(events).verdict_spec() == Some(
                Err::<(), Error>(Error::SetupExhausted(attempts)),
            )
        },
    decreases events.len(),
{
    let first = Gate::start_spec(attempts).0;
    run_keeps_wf(first, events);
    if events.len() > 0 {
        let before = events.drop_last();
        assert forall|i: int| 0 <= i < before.len() implies !announces_in_time(#[trigger] before[i]) by {
            assert(before[i] == events[i]);
        }
        run_without_marker_exhausts(attempts, before);
    }
}

/// The events of `n` attempts of a process that starts and then stays
/// silent until its deadline has passed.
pub open spec fn silent_attempts(n: nat) -> Seq<Event>
    decreases n,
{
    if n == 0 {
        Seq::empty()
    } else {
        silent_attempts((n - 1) as nat).push(Event::Started(true)).push(
            Event::Polled(Received::Empty, (DEADLINE_MS + 1) as u64),
        )
    }
}

/// Running one more event is applying it to the state that the events
/// before it led to.
pub proof fn run_one_more(gate: Gate, events: Seq<Event>, event: Event)
    ensures
        gate.run(events.push(event)) == gate.run(events).apply(event),
{
    assert(events.push(event).drop_last() =~= events);
}

/// A process that stays silent on every attempt exhausts the setup with
/// the last allowed attempt and not before: after `n` silent attempts the
/// next one is owed while any is left, and after as many as are allowed
/// the supervision has given up, with every attempt begun and torn down.
pub proof fn silent_attempts_exhaust(attempts: u8, n: nat)
    requires
        n <= attempts,
    ensures
        n < attempts ==> Gate::start_spec(attempts).0.run(silent_attempts(n)) == (Gate {
            phase: Phase::Spawning,
            attempts,
            started: (n + 1) as u8,
            discarded: n as u8,
        }),
        n == attempts ==> Gate::start_spec(attempts).0.run(silent_attempts(n)) == (Gate {
            phase: Phase::Exhausted,
            attempts,
            started: attempts,
            discarded: attempts,
        }),
        n == attempts ==> Gate::start_spec(attempts).0.run(silent_attempts(n)).verdict_spec()
            == Some(Err::<(), Error>(Error::SetupExhausted(attempts))),
    decreases n,
{
    let first = Gate::start_spec(attempts).0;
    if n > 0 {
        let before = silent_attempts((n - 1) as nat);
        let started = Event::Started(true);
        let silent = Event::Polled(Received::Empty, (DEADLINE_MS + 1) as u64);
        silent_attempts_exhaust(attempts, (n - 1) as nat);
        run_one_more(first, before, started);
        run_one_more(first, before.push(started), silent);
    }
}

/// Each failure of an attempt tears down exactly one attempt, and begins
/// another only where one is left.
pub proof fn failure_uses_one_attempt(gate: Gate)
    requires
        gate.wf(),
        gate.phase == Phase::Spawning || gate.phase == Phase::Polling,
    ensures
        gate.failed().0.discarded == gate.discarded + 1,
        gate.started < gate.attempts ==> gate.failed().0.started == gate.started + 1
            && gate.failed().1 == Action::Retry,
        gate.started == gate.attempts ==> gate.failed().0.phase == Phase::Exhausted
            && gate.failed().1 == Action::GiveUp,
{
}

/// No attempt outlives its deadline: a poll after it ends the attempt,
/// whatever it brings, the readiness marker included.
pub proof fn deadline_ends_attempt(gate: Gate, received: Received, elapsed_ms: u64)
    requires
        gate.wf(),
        gate.phase == Phase::Polling,
        elapsed_ms > DEADLINE_MS,
    ensures
        gate.polled_spec(received, elapsed_ms) == gate.failed(),
        gate.polled_spec(received, elapsed_ms).0.phase != Phase::Polling,
        gate.polled_spec(received, elapsed_ms).0.phase != Phase::Ready,
{
}

/// A process is handed over exactly when a line with the readiness marker
/// is received within the deadline of its attempt.
pub proof fn ready_needs_marker_in_time(gate: Gate, received: Received, elapsed_ms: u64)
    requires
        gate.wf(),
        gate.phase == Phase::Polling,
    ensures
        gate.polled_spec(received, elapsed_ms).0.phase == Phase::Ready <==> announces_in_time(
            Event::Polled(received, elapsed_ms),
        ),
        gate.polled_spec(received, elapsed_ms).0.phase == Phase::Ready ==> gate.polled_spec(
            received,
            elapsed_ms,
        ) == (Gate { phase: Phase::Ready, ..gate }, Action::Done),
{
}

/// A process that is gone without having announced readiness fails its
/// attempt at once, however little of the deadline has passed.
pub proof fn closure_ends_attempt_at_once(gate: Gate, elapsed_ms: u64)
    requires
        gate.wf(),
        gate.phase == Phase::Polling,
    ensures
        gate.polled_spec(Received::Closed, elapsed_ms) == gate.failed(),
        gate.polled_spec(Received::Closed, elapsed_ms).0.phase != Phase::Polling,
        gate.attempts == 1 ==> gate.polled_spec(Received::Closed, elapsed_ms).0.phase
            == Phase::Exhausted,
{
}

} // verus!
