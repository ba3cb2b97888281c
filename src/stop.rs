use vstd::prelude::*;
use crate::events::{count_stopped, Event, Note, Status};
use crate::shutdown::ShutdownError;
use crate::supervisor::{finish_events, MAX_PROBES};

verus! {

/// What the caller does next while stopping the process.
#[derive(Clone, Copy, Debug, PartialEq, Eq, Structural)]
pub enum StopAction {
    /// Send the shutdown request and report its outcome.
    Negotiate,
    /// Pause one second, then report whether the port is still open.
    Probe,
    /// The process exited: wait for it to be reaped, then finish.
    Reap,
    /// Kill the process, wait for it to be reaped, then finish.
    ForceKill,
}

/// Where a stop stands.
#[derive(Clone, Copy, Debug, PartialEq, Eq, Structural)]
pub enum StopPhase {
    Negotiating,
    Polling,
    Done,
}

/// The events of one step of a stop and what to do next.
pub struct Step {
    pub events: Vec<Event>,
    pub action: StopAction,
}

/// The decisions of one stop, from the shutdown request to the end of the
/// polling.
pub struct Stopper {
    phase: StopPhase,
    attempts: u32,
}

/// Phase, events and next action after the negotiation ended with `outcome`.
pub open spec fn negotiation_step(outcome: Result<(), ShutdownError>) -> (StopPhase, Seq<Event>, StopAction) {
    match outcome {
        Ok(()) => (StopPhase::Polling, seq![Event::Note(Note::ShutdownAccepted)], StopAction::Probe),
        Err(e) => (StopPhase::Done, seq![Event::Note(Note::ShutdownRefused(e))], StopAction::ForceKill),
    }
}

/// Phase, events and next action after probe number `attempts + 1` found the
/// port `open` or closed.
pub open spec fn probe_step(attempts: nat, open: bool) -> (StopPhase, Seq<Event>, StopAction) {
    let a = attempts + 1;
    if !open {
        (StopPhase::Done, seq![Event::Note(Note::PortReleased)], StopAction::Reap)
    } else if a < MAX_PROBES {
        (StopPhase::Polling, seq![Event::Note(Note::WaitingForExit(a as u32))], StopAction::Probe)
    } else {
        (
            StopPhase::Done,
            seq![Event::Note(Note::WaitingForExit(a as u32)), Event::Note(Note::WaitTimedOut)],
            StopAction::ForceKill,
        )
    }
}

/// The polling loop entered after `attempts` probes, fed the port answers
/// `answers` in order: the probes it makes, the events it emits, and the
/// action it ends with (`None` where the answers run out first).
pub open spec fn poll(attempts: nat, answers: Seq<bool>) -> (nat, Seq<Event>, Option<StopAction>)
    decreases answers.len(),
{
    if answers.len() == 0 || attempts >= MAX_PROBES {
        (0, Seq::empty(), None)
    } else {
        let (ph, es, act) = probe_step(attempts, answers[0]);
        if ph == StopPhase::Done {
            (1, es, Some(act))
        } else {
            let (n, rest, fin) = poll(attempts + 1, answers.drop_first());
            (n + 1, es + rest, fin)
        }
    }
}

/// The events of a whole stop whose negotiation ended with `outcome` and
/// whose probes saw `answers`, up to and with the closing events.
pub open spec fn stop_trace(outcome: Result<(), ShutdownError>, answers: Seq<bool>) -> Seq<Event> {
    let (_, nes, _) = negotiation_step(outcome);
    let opening = seq![Event::Note(Note::ShutdownBegun)] + nes;
    match outcome {
        Ok(()) => {
            let (_, pes, fin) = poll(0, answers);
            opening + pes + finish_events(fin == Some(StopAction::Reap))
        },
        Err(_) => opening + finish_events(false),
    }
}

/// A stop runs to its end: the negotiation failed, or the polling reached a
/// final action on these answers.
pub open spec fn completes(outcome: Result<(), ShutdownError>, answers: Seq<bool>) -> bool {
    outcome is Err || poll(0, answers).2 is Some
}

impl Stopper {
    pub closed spec fn phase(&self) -> StopPhase {
        self.phase
    }

    pub closed spec fn attempts(&self) -> nat {
        self.attempts as nat
    }

    pub open spec fn wf(&self) -> bool {
        &&& self.attempts() <= MAX_PROBES
        &&& self.phase() == StopPhase::Polling ==> self.attempts() < MAX_PROBES
        &&& self.phase() == StopPhase::Negotiating ==> self.attempts() == 0
    }

    /// Opens a stop: announces it and asks for the shutdown request.
    pub fn begin() -> (r: (Stopper, Step))
        ensures
            r.0.wf(),
            r.0.phase() == StopPhase::Negotiating,
            r.0.attempts() == 0,
            r.1.events@ == seq![Event::Note(Note::ShutdownBegun)],
            r.1.action == StopAction::Negotiate,
    {
        let mut events: Vec<Event> = Vec::new();
        events.push(Event::Note(Note::ShutdownBegun));
        proof {
            assert(events@ =~= seq![Event::Note(Note::ShutdownBegun)]);
        }
        (Stopper { phase: StopPhase::Negotiating, attempts: 0 }, Step { events, action: StopAction::Negotiate })
    }

    /// Takes the outcome of the shutdown request: an accepted one starts the
    /// polling, any failure asks for the process to be killed at once.
    pub fn on_negotiated(&mut self, outcome: Result<(), ShutdownError>) -> (r: Step)
        requires
            old(self).wf(),
            old(self).phase() == StopPhase::Negotiating,
        ensures
            final(self).wf(),
            final(self).attempts() == old(self).attempts(),
            (final(self).phase(), r.events@, r.action) == negotiation_step(outcome),
    {
        let mut events: Vec<Event> = Vec::new();
        match outcome {
            Ok(()) => {
                self.phase = StopPhase::Polling;
                events.push(Event::Note(Note::ShutdownAccepted));
                proof {
                    assert(events@ =~= seq![Event::Note(Note::ShutdownAccepted)]);
                }
                Step { events, action: StopAction::Probe }
            },
            Err(e) => {
                self.phase = StopPhase::Done;
                events.push(Event::Note(Note::ShutdownRefused(e)));
                proof {
                    assert(events@ =~= seq![Event::Note(Note::ShutdownRefused(e))]);
                }
                Step { events, action: StopAction::ForceKill }
            },
        }
    }

    /// Takes the answer of one probe of the port: a closed port ends the
    /// polling with a reap, an open one asks for another probe until the
    /// probes run out, and then for the process to be killed.
    pub fn on_probe(&mut self, port_open: bool) -> (r: Step)
        requires
            old(self).wf(),
            old(self).phase() == StopPhase::Polling,
        ensures
            final(self).wf(),
            final(self).attempts() == old(self).attempts() + 1,
            (final(self).phase(), r.events@, r.action) == probe_step(old(self).attempts(), port_open),
    {
        self.attempts = self.attempts + 1;
        let a = self.attempts;
        let mut events: Vec<Event> = Vec::new();
        if !port_open {
            self.phase = StopPhase::Done;
            events.push(Event::Note(Note::PortReleased));
            proof {
                assert(events@ =~= seq![Event::Note(Note::PortReleased)]);
            }
            Step { events, action: StopAction::Reap }
        } else if a < MAX_PROBES {
            events.push(Event::Note(Note::WaitingForExit(a)));
            proof {
                assert(events@ =~= seq![Event::Note(Note::WaitingForExit(a))]);
            }
            Step { events, action: StopAction::Probe }
        } else {
            self.phase = StopPhase::Done;
            events.push(Event::Note(Note::WaitingForExit(a)));
            events.push(Event::Note(Note::WaitTimedOut));
            proof {
                assert(events@ =~= seq![Event::Note(Note::WaitingForExit(a)), Event::Note(Note::WaitTimedOut)]);
            }
            Step { events, action: StopAction::ForceKill }
        }
    }
}

proof fn lemma_count_stopped_concat(a: Seq<Event>, b: Seq<Event>)
    ensures
        count_stopped(a + b) == count_stopped(a) + count_stopped(b),
    decreases b.len(),
{
    if b.len() > 0 {
        assert((a + b).drop_last() =~= a + b.drop_last());
        lemma_count_stopped_concat(a, b.drop_last());
    } else {
        assert(a + b =~= a);
    }
}

proof fn lemma_notes_not_stopped(es: Seq<Event>)
    requires
        forall|i: int| 0 <= i < es.len() ==> es[i] is Note,
    ensures
        count_stopped(es) == 0,
    decreases es.len(),
{
    if es.len() > 0 {
        lemma_notes_not_stopped(es.drop_last());
    }
}

proof fn lemma_poll_notes(attempts: nat, answers: Seq<bool>)
    ensures
        forall|i: int| 0 <= i < poll(attempts, answers).1.len() ==> poll(attempts, answers).1[i] is Note,
    decreases answers.len(),
{
    if answers.len() > 0 && attempts < MAX_PROBES {
        lemma_poll_notes(attempts + 1, answers.drop_first());
    }
}

/// The polling makes at most as many probes as remain of the limit, and as
/// many as answers were given.
pub proof fn lemma_poll_bounded(attempts: nat, answers: Seq<bool>)
    requires
        attempts <= MAX_PROBES,
    ensures
        poll(attempts, answers).0 <= MAX_PROBES - attempts,
        poll(attempts, answers).0 <= answers.len(),
    decreases answers.len(),
{
    if answers.len() > 0 && attempts < MAX_PROBES {
        lemma_poll_bounded(attempts + 1, answers.drop_first());
    }
}

/// The polling stops at the first probe that finds the port closed, and then
/// reaps the process rather than killing it.
pub proof fn lemma_poll_stops_at_first_closed(attempts: nat, answers: Seq<bool>, k: int)
    requires
        0 <= k < answers.len(),
        attempts + k < MAX_PROBES,
        !answers[k],
        forall|j: int| 0 <= j < k ==> answers[j],
    ensures
        poll(attempts, answers).0 == k + 1,
        poll(attempts, answers).2 == Some(StopAction::Reap),
    decreases k,
{
    if k > 0 {
        let rest = answers.drop_first();
        assert(answers[0]);
        assert forall|j: int| 0 <= j < k - 1 implies rest[j] by {
            assert(rest[j] == answers[j + 1]);
        }
        lemma_poll_stops_at_first_closed(attempts + 1, rest, k - 1);
    }
}

/// With the port open at every probe the polling ends after the last allowed
/// probe and asks for the process to be killed.
pub proof fn lemma_poll_times_out(attempts: nat, answers: Seq<bool>)
    requires
        attempts < MAX_PROBES,
        answers.len() >= MAX_PROBES - attempts,
        forall|j: int| 0 <= j < answers.len() ==> answers[j],
    ensures
        poll(attempts, answers).0 == MAX_PROBES - attempts,
        poll(attempts, answers).2 == Some(StopAction::ForceKill),
    decreases MAX_PROBES - attempts,
{
    if attempts + 1 < MAX_PROBES {
        let rest = answers.drop_first();
        assert forall|j: int| 0 <= j < rest.len() implies rest[j] by {
            assert(rest[j] == answers[j + 1]);
        }
        lemma_poll_times_out(attempts + 1, rest);
    }
}

/// Every stop that runs to its end emits exactly one `stopped` status,
/// whether the negotiation failed, the port closed, or the polling timed out.
pub proof fn lemma_stop_emits_one_stopped(outcome: Result<(), ShutdownError>, answers: Seq<bool>)
    requires
        completes(outcome, answers),
    ensures
        count_stopped(stop_trace(outcome, answers)) == 1,
{
    let (_, nes, _) = negotiation_step(outcome);
    let opening = seq![Event::Note(Note::ShutdownBegun)] + nes;
    lemma_notes_not_stopped(opening);
    let g = match outcome {
        Ok(()) => poll(0, answers).2 == Some(StopAction::Reap),
        Err(_) => false,
    };
    let fe = finish_events(g);
    assert(fe.drop_last() =~= seq![Event::Status(Status::Stopped)]);
    assert(fe.drop_last().drop_last() =~= Seq::<Event>::empty());
    reveal_with_fuel(count_stopped, 3);
    assert(count_stopped(fe) == 1);
    match outcome {
        Ok(()) => {
            let pes = poll(0, answers).1;
            lemma_poll_notes(0, answers);
            lemma_notes_not_stopped(pes);
            lemma_count_stopped_concat(opening, pes);
            lemma_count_stopped_concat(opening + pes, fe);
        },
        Err(_) => {
            lemma_count_stopped_concat(opening, fe);
        },
    }
}

} // verus!
