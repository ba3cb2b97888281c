use vstd::prelude::*;
use crate::events::{count_running, Event, Status};
use crate::text::{contains, contains_seq};

verus! {

/// The line that the server prints on its output once it is ready.
pub const READY_MARKER: &'static str = "Application started, application.yml is connected";

/// Which of the process's two streams a pump reads.
#[derive(Clone, Copy, Debug, PartialEq, Eq, Structural)]
pub enum StreamRole {
    Output,
    Error,
}

/// Whether `line` makes a pump in this state announce readiness.
pub open spec fn fires(role: StreamRole, announced: bool, line: Seq<char>) -> bool {
    role == StreamRole::Output && !announced && contains_seq(line, READY_MARKER@)
}

/// Forwards the lines of one stream, announcing readiness once.
pub struct LogPump {
    role: StreamRole,
    announced: bool,
}

/// Number of readiness events that a pump in this state emits for `lines`.
pub open spec fn readiness_events(role: StreamRole, announced: bool, lines: Seq<Seq<char>>) -> nat
    decreases lines.len(),
{
    if lines.len() == 0 {
        0
    } else {
        let f = fires(role, announced, lines[0]);
        (if f { 1nat } else { 0nat }) + readiness_events(role, announced || f, lines.drop_first())
    }
}

impl LogPump {
    pub closed spec fn role(&self) -> StreamRole {
        self.role
    }

    pub closed spec fn announced(&self) -> bool {
        self.announced
    }

    pub fn new(role: StreamRole) -> (r: LogPump)
        ensures
            r.role() == role,
            !r.announced(),
    {
        LogPump { role, announced: false }
    }

    /// The events for one line: the readiness status first where the line
    /// announces it, then the line itself.
    pub fn on_line(&mut self, line: String) -> (r: Vec<Event>)
        ensures
            final(self).role() == old(self).role(),
            final(self).announced() == (old(self).announced() || fires(old(self).role(), old(self).announced(), line@)),
            if fires(old(self).role(), old(self).announced(), line@) {
                r@ == seq![Event::Status(Status::Running), Event::Line(line)]
            } else {
                r@ == seq![Event::Line(line)]
            },
            count_running(r@) == if fires(old(self).role(), old(self).announced(), line@) { 1nat } else { 0nat },
    {
        let mut r: Vec<Event> = Vec::new();
        if matches!(self.role, StreamRole::Output) && !self.announced && contains(line.as_str(), READY_MARKER) {
            self.announced = true;
            r.push(Event::Status(Status::Running));
        }
        r.push(Event::Line(line));
        proof {
            reveal_with_fuel(count_running, 3);
            if r@.len() == 2 {
                assert(r@.drop_last() =~= seq![Event::Status(Status::Running)]);
                assert(r@.drop_last().drop_last() =~= Seq::<Event>::empty());
            } else {
                assert(r@.drop_last() =~= Seq::<Event>::empty());
            }
        }
        r
    }
}

/// A pump emits at most one readiness event over all the lines of its
/// stream, however often the marker appears; none once it has announced.
pub proof fn lemma_readiness_at_most_once(role: StreamRole, announced: bool, lines: Seq<Seq<char>>)
    ensures
        readiness_events(role, announced, lines) <= 1,
        announced ==> readiness_events(role, announced, lines) == 0,
    decreases lines.len(),
{
    if lines.len() > 0 {
        let f = fires(role, announced, lines[0]);
        lemma_readiness_at_most_once(role, announced || f, lines.drop_first());
    }
}

} // verus!
