//! The command correlator.
//!
//! The supervised process answers commands only through its log, without
//! request ids. A correlation therefore subscribes to the log hub, submits
//! its command to the dispatch queue, and waits for lines matching an
//! ordered list of phases, each phase with its own timeout: a short first
//! phase bounds how long the process may take to acknowledge the command,
//! and a longer later phase bounds how long the acknowledged work may take.
//!
//! Known limitation: the log stream carries no request identifiers, so a
//! reply provoked by a concurrent command of the same kind can satisfy a
//! phase's pattern. The design accepts this; the RCON transport, which does
//! carry request ids, is free of it.

use vstd::prelude::*;

verus! {

use crate::dispatch::DispatchError;
use crate::dispatch::DispatchQueue;
use crate::hub::BroadcastHub;

/// Whether `pattern` is a valid regular expression. Stands for the outcome
/// of `regex::Regex::new` on it.
pub uninterp spec fn re_compiles(pattern: Seq<char>) -> bool;

/// Whether `pattern`, as a regular expression, matches anywhere in `text`.
/// Stands for the outcome of `regex::Regex::is_match`.
pub uninterp spec fn re_is_match(pattern: Seq<char>, text: Seq<char>) -> bool;

/// Relies on `regex::Regex::new` and `regex::Regex::is_match`: whether the
/// pattern compiles, and then whether it matches anywhere in the text; both
/// outcomes depend on the two strings alone.
#[verifier::external_body]
fn regex_match(pattern: &str, text: &str) -> (r: Option<bool>)
    ensures
        r is Some <==> re_compiles(pattern@),
        r matches Some(m) ==> m == re_is_match(pattern@, text@),
{
    match regex::Regex::new(pattern) {
        Ok(re) => Some(re.is_match(text)),
        Err(_) => None,
    }
}

/// Whether a line answers a phase: the phase's pattern is a valid regular
/// expression and matches the line.
pub open spec fn spec_line_matches(pattern: Seq<char>, text: Seq<char>) -> bool {
    re_compiles(pattern) && re_is_match(pattern, text)
}

/// Whether a line answers a phase.
pub fn line_matches(pattern: &str, text: &str) -> (r: bool)
    ensures
        r == spec_line_matches(pattern@, text@),
{
    match regex_match(pattern, text) {
        Some(m) => m,
        None => false,
    }
}

/// One phase of an expected reply: a pattern that recognises it and how
/// many milliseconds to wait for it.
pub struct Phase {
    pub pattern: String,
    pub timeout_millis: u64,
}

/// A command and the ordered phases that recognise its reply. Immutable
/// once issued.
pub struct CommandRequest {
    pub command: String,
    pub phases: Vec<Phase>,
}

/// Where one correlation stands. `AwaitingPhase(i)` waits for a line
/// matching phase `i`; the other states are terminal. `TimedOut` carries
/// the number, counted from one, of the phase whose timeout fired.
pub enum CorrelationState {
    AwaitingPhase(usize),
    Matched(String),
    TimedOut(usize),
    DispatchFailed,
}

/// What one correlation observes: a log line, its current phase's timer
/// firing, or the failure of its command submission.
pub enum CorrelationEvent {
    LineArrived(String),
    TimerFired,
    SubmitFailed,
}

/// How a correlation ended. Produced exactly once per request.
#[derive(Debug)]
pub enum CorrelationOutcome {
    /// The last phase was matched; carries the matching line.
    Matched(String),
    /// The numbered phase (counted from one) timed out.
    TimedOut(usize),
    /// The process no longer accepts commands.
    ProcessUnavailable,
    /// The command could not be submitted in time.
    DispatchFailed,
}

/// A state is terminal when no event changes it.
pub open spec fn is_terminal(state: CorrelationState) -> bool {
    !(state is AwaitingPhase)
}

/// How one event moves a correlation forward. In phase `i`, a line that
/// does not match phase `i`'s pattern is discarded; a matching line
/// advances to phase `i + 1`, or ends in `Matched` on the last phase; the
/// timer ends in `TimedOut(i + 1)`; a failed submission ends in
/// `DispatchFailed`. Terminal states absorb every event.
pub open spec fn spec_step(
    phases: Seq<Phase>,
    state: CorrelationState,
    event: CorrelationEvent,
) -> CorrelationState {
    match state {
        CorrelationState::AwaitingPhase(i) => {
            if i < phases.len() {
                match event {
                    CorrelationEvent::LineArrived(line) => {
                        if spec_line_matches(phases[i as int].pattern@, line@) {
                            if i + 1 == phases.len() {
                                CorrelationState::Matched(line)
                            } else {
                                CorrelationState::AwaitingPhase((i + 1) as usize)
                            }
                        } else {
                            state
                        }
                    },
                    CorrelationEvent::TimerFired => CorrelationState::TimedOut((i + 1) as usize),
                    CorrelationEvent::SubmitFailed => CorrelationState::DispatchFailed,
                }
            } else {
                state
            }
        },
        _ => state,
    }
}

/// Where a correlation stands after observing a whole event sequence.
pub open spec fn spec_run(
    phases: Seq<Phase>,
    state: CorrelationState,
    events: Seq<CorrelationEvent>,
) -> CorrelationState
    decreases events.len(),
{
    if events.len() == 0 {
        state
    } else {
        spec_run(phases, spec_step(phases, state, events[0]), events.skip(1))
    }
}

/// A terminal state is produced exactly once: no later event moves a
/// correlation that has ended.
pub proof fn lemma_terminal_absorbs(
    phases: Seq<Phase>,
    state: CorrelationState,
    event: CorrelationEvent,
)
    requires
        is_terminal(state),
    ensures
        spec_step(phases, state, event) == state,
{
}

/// A correlation that has ended stays where it ended, whatever arrives.
pub proof fn lemma_run_terminal(
    phases: Seq<Phase>,
    state: CorrelationState,
    events: Seq<CorrelationEvent>,
)
    requires
        is_terminal(state),
    ensures
        spec_run(phases, state, events) == state,
    decreases events.len(),
{
    if events.len() > 0 {
        lemma_run_terminal(phases, state, events.skip(1));
    }
}

/// The terminal state a correlation's outcome reports.
pub open spec fn spec_outcome(state: CorrelationState) -> Option<CorrelationOutcome> {
    match state {
        CorrelationState::AwaitingPhase(_) => None,
        CorrelationState::Matched(line) => Some(CorrelationOutcome::Matched(line)),
        CorrelationState::TimedOut(i) => Some(CorrelationOutcome::TimedOut(i)),
        CorrelationState::DispatchFailed => Some(CorrelationOutcome::DispatchFailed),
    }
}

/// One correlation in flight: its request and where it stands.
pub struct Correlator {
    pub request: CommandRequest,
    pub state: CorrelationState,
}

impl Correlator {
    /// A correlator is well formed when its request has at least one phase
    /// and, while waiting, its phase index is in range.
    pub open spec fn wf(self) -> bool {
        &&& self.request.phases@.len() >= 1
        &&& (self.state matches CorrelationState::AwaitingPhase(i) ==> i
            < self.request.phases@.len())
    }

    /// A fresh correlation, waiting for its first phase.
    pub fn new(request: CommandRequest) -> (c: Correlator)
        requires
            request.phases@.len() >= 1,
        ensures
            c.wf(),
            c.request == request,
            c.state == CorrelationState::AwaitingPhase(0usize),
    {
        Correlator { request, state: CorrelationState::AwaitingPhase(0) }
    }

    /// Whether the correlation has ended.
    pub fn is_done(&self) -> (r: bool)
        ensures
            r == is_terminal(self.state),
    {
        match self.state {
            CorrelationState::AwaitingPhase(_) => false,
            _ => true,
        }
    }

    /// Observes one event.
    pub fn step(&mut self, event: CorrelationEvent)
        requires
            old(self).wf(),
        ensures
            final(self).wf(),
            final(self).request == old(self).request,
            final(self).state == spec_step(old(self).request.phases@, old(self).state, event),
    {
        let phase = match &self.state {
            CorrelationState::AwaitingPhase(i) => Some(*i),
            _ => None,
        };
        match phase {
            None => {},
            Some(i) => {
                let phase_count = self.request.phases.len();
                proof {
                    assert(i < phase_count);
                }
                match event {
                    CorrelationEvent::LineArrived(line) => {
                        let pattern = &self.request.phases[i].pattern;
                        if line_matches(pattern.as_str(), line.as_str()) {
                            if i + 1 == phase_count {
                                self.state = CorrelationState::Matched(line);
                            } else {
                                self.state = CorrelationState::AwaitingPhase(i + 1);
                            }
                        }
                    },
                    CorrelationEvent::TimerFired => {
                        self.state = CorrelationState::TimedOut(i + 1);
                    },
                    CorrelationEvent::SubmitFailed => {
                        self.state = CorrelationState::DispatchFailed;
                    },
                }
            },
        }
    }

    /// The outcome, once the correlation has ended.
    pub fn outcome(self) -> (r: Option<CorrelationOutcome>)
        ensures
            r == spec_outcome(self.state),
    {
        match self.state {
            CorrelationState::AwaitingPhase(_) => None,
            CorrelationState::Matched(line) => Some(CorrelationOutcome::Matched(line)),
            CorrelationState::TimedOut(i) => Some(CorrelationOutcome::TimedOut(i)),
            CorrelationState::DispatchFailed => Some(CorrelationOutcome::DispatchFailed),
        }
    }
}

/// Runs one whole correlation against the hub and the dispatch queue,
/// given the events its subscription observed, in order: subscribe, submit
/// the command, fold the events through the state machine, and always
/// unsubscribe. A closed queue ends in `ProcessUnavailable`, a full one in
/// `DispatchFailed`; otherwise the outcome is what the events lead to, or
/// `None` when they ran out with the correlation still waiting. The hub's
/// subscribers are exactly as before the call: a correlation never leaks
/// its subscription, however it ends.
pub fn run_correlation(
    hub: &mut BroadcastHub,
    queue: &mut DispatchQueue,
    request: CommandRequest,
    events: Vec<CorrelationEvent>,
) -> (r: Option<CorrelationOutcome>)
    requires
        old(hub).wf(),
        old(hub).next_id < u64::MAX,
        old(queue).wf(),
        request.phases@.len() >= 1,
    ensures
        final(hub).wf(),
        final(queue).wf(),
        final(hub).subscribers@ == old(hub).subscribers@,
        final(hub).capacity == old(hub).capacity,
        final(queue).capacity == old(queue).capacity,
        final(queue).open == old(queue).open,
        !old(queue).open ==> r == Some(CorrelationOutcome::ProcessUnavailable)
            && final(queue).items == old(queue).items,
        old(queue).open && old(queue).items@.len() == old(queue).capacity ==> r == Some(
            CorrelationOutcome::DispatchFailed,
        ) && final(queue).items == old(queue).items,
        old(queue).open && old(queue).items@.len() < old(queue).capacity ==> final(queue).items@
            == old(queue).items@.push(request.command) && r == spec_outcome(
            spec_run(
                request.phases@,
                CorrelationState::AwaitingPhase(0usize),
                events@,
            ),
        ),
{
    let subscriber_id = hub.subscribe();
    let ghost with_sub = hub.subscribers@;
    match queue.submit(&request.command) {
        Err(DispatchError::QueueClosed) => {
            hub.unsubscribe(subscriber_id);
            proof {
                let k = with_sub.len() - 1;
                assert(with_sub[k].id == subscriber_id);
                assert(hub.subscribers@ == with_sub.remove(k));
                assert(with_sub.remove(k) =~= old(hub).subscribers@);
            }
            return Some(CorrelationOutcome::ProcessUnavailable);
        },
        Err(DispatchError::QueueFull) => {
            hub.unsubscribe(subscriber_id);
            proof {
                let k = with_sub.len() - 1;
                assert(with_sub[k].id == subscriber_id);
                assert(hub.subscribers@ == with_sub.remove(k));
                assert(with_sub.remove(k) =~= old(hub).subscribers@);
            }
            return Some(CorrelationOutcome::DispatchFailed);
        },
        Ok(()) => {},
    }
    let ghost all_events = events@;
    let ghost phases = request.phases@;
    let mut correlator = Correlator::new(request);
    let mut remaining = events;
    let mut done = correlator.is_done();
    while !done && remaining.len() > 0
        invariant
            correlator.wf(),
            correlator.request.phases@ == phases,
            done == is_terminal(correlator.state),
            spec_run(phases, CorrelationState::AwaitingPhase(0usize), all_events) == spec_run(
                phases,
                correlator.state,
                remaining@,
            ),
        decreases remaining@.len(),
    {
        let ghost pre_events = remaining@;
        let event = remaining.remove(0);
        proof {
            assert(remaining@ =~= pre_events.skip(1));
        }
        correlator.step(event);
        done = correlator.is_done();
    }
    proof {
        if remaining@.len() > 0 {
            lemma_run_terminal(phases, correlator.state, remaining@);
        }
    }
    hub.unsubscribe(subscriber_id);
    proof {
        let k = with_sub.len() - 1;
        assert(with_sub[k].id == subscriber_id);
        assert(hub.subscribers@ == with_sub.remove(k));
        assert(with_sub.remove(k) =~= old(hub).subscribers@);
    }
    correlator.outcome()
}

/// The request that saves the world: a short wait for the save to be
/// acknowledged, then a longer wait for it to finish.
pub fn save_all_request() -> (r: CommandRequest)
    ensures
        r.command@ == "save-all"@,
        r.phases@.len() == 2,
        r.phases@[0].pattern@ == "Saving the game"@,
        r.phases@[0].timeout_millis == 500,
        r.phases@[1].pattern@ == "Saved the game"@,
        r.phases@[1].timeout_millis == 5000,
{
    let mut phases: Vec<Phase> = Vec::new();
    phases.push(Phase { pattern: String::from_str("Saving the game"), timeout_millis: 500 });
    phases.push(Phase { pattern: String::from_str("Saved the game"), timeout_millis: 5000 });
    CommandRequest { command: String::from_str("save-all"), phases }
}

/// The request that lists who is online, answered by one reply line.
pub fn list_players_request() -> (r: CommandRequest)
    ensures
        r.command@ == "list uuids"@,
        r.phases@.len() == 1,
        r.phases@[0].pattern@ == "There are \\d+ of a max \\d+ players online:"@,
        r.phases@[0].timeout_millis == 500,
{
    let mut phases: Vec<Phase> = Vec::new();
    phases.push(
        Phase {
            pattern: String::from_str("There are \\d+ of a max \\d+ players online:"),
            timeout_millis: 500,
        },
    );
    CommandRequest { command: String::from_str("list uuids"), phases }
}

/// The request that turns automatic saving on.
pub fn enable_automatic_save_request() -> (r: CommandRequest)
    ensures
        r.command@ == "save-on"@,
        r.phases@.len() == 1,
        r.phases@[0].pattern@
            == "(Automatic saving is now enabled|Saving is already turned on)"@,
        r.phases@[0].timeout_millis == 500,
{
    let mut phases: Vec<Phase> = Vec::new();
    phases.push(
        Phase {
            pattern: String::from_str(
                "(Automatic saving is now enabled|Saving is already turned on)",
            ),
            timeout_millis: 500,
        },
    );
    CommandRequest { command: String::from_str("save-on"), phases }
}

/// The request that turns automatic saving off.
pub fn disable_automatic_save_request() -> (r: CommandRequest)
    ensures
        r.command@ == "save-off"@,
        r.phases@.len() == 1,
        r.phases@[0].pattern@
            == "(Automatic saving is now disabled|Saving is already turned off)"@,
        r.phases@[0].timeout_millis == 500,
{
    let mut phases: Vec<Phase> = Vec::new();
    phases.push(
        Phase {
            pattern: String::from_str(
                "(Automatic saving is now disabled|Saving is already turned off)",
            ),
            timeout_millis: 500,
        },
    );
    CommandRequest { command: String::from_str("save-off"), phases }
}

} // verus!
