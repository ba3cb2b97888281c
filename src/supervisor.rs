use vstd::prelude::*;
use crate::events::{count_stopped, Event, Note, Status};
use crate::shutdown::ShutdownError;
use crate::text::{starts_with, starts_with_seq};

verus! {

/// Number of port probes after an accepted shutdown before the process is
/// killed.
pub const MAX_PROBES: u32 = 15;

/// The prefix that marks an artifact path as relative to the parent of the
/// working directory.
pub const PARENT_PREFIX: &'static str = "../";

/// Why a start was refused.
#[derive(Debug)]
pub enum StartError {
    AlreadyRunning,
    /// The artifact, as resolved, does not exist.
    ArtifactNotFound(String),
    /// The process could not be spawned: the cause.
    SpawnFailed(String),
}

/// The part of an artifact path below the parent of the working directory,
/// where the path is written in that form.
pub fn parent_relative(path: &str) -> (r: Option<String>)
    ensures
        (r is Some) == starts_with_seq(path@, PARENT_PREFIX@),
        r matches Some(rest) ==> rest@ == path@.skip(PARENT_PREFIX@.len() as int),
{
    if starts_with(path, PARENT_PREFIX) {
        let n = path.unicode_len();
        let k = PARENT_PREFIX.unicode_len();
        Some(String::from_str(path.substring_char(k, n)))
    } else {
        None
    }
}

/// Owns the single slot of the supervised process; `H` is the handle of a
/// running process.
pub struct Supervisor<H> {
    slot: Option<H>,
}

/// The answer to a start request on a supervisor whose slot is or is not
/// occupied, for an artifact that does or does not exist.
pub open spec fn start_check(occupied: bool, exists: bool) -> Result<(), ()> {
    if occupied || !exists {
        Err(())
    } else {
        Ok(())
    }
}

impl<H> Supervisor<H> {
    /// The handle in the slot, if any.
    pub closed spec fn slot(&self) -> Option<H> {
        self.slot
    }

    pub open spec fn occupied(&self) -> bool {
        self.slot() is Some
    }

    /// A supervisor with an empty slot.
    pub fn new() -> (r: Supervisor<H>)
        ensures
            r.slot() is None,
    {
        Supervisor { slot: None }
    }

    /// Whether the slot holds a process.
    pub fn is_occupied(&self) -> (r: bool)
        ensures
            r == self.occupied(),
    {
        self.slot.is_some()
    }

    /// Decides whether a start may go on to spawn the process: not while the
    /// slot is occupied, and not for an artifact that does not exist.
    pub fn start_gate(&self, artifact: &str, exists: bool) -> (r: Result<(), StartError>)
        ensures
            self.occupied() ==> r matches Err(StartError::AlreadyRunning),
            !self.occupied() && !exists ==> (r matches Err(StartError::ArtifactNotFound(p)) && p@ == artifact@),
            !self.occupied() && exists ==> r is Ok,
    {
        if self.slot.is_some() {
            Err(StartError::AlreadyRunning)
        } else if !exists {
            Err(StartError::ArtifactNotFound(String::from_str(artifact)))
        } else {
            Ok(())
        }
    }

    /// Takes the result of spawning: a spawned process occupies the slot and
    /// is announced as starting; a failed spawn leaves the slot empty.
    pub fn complete_start(&mut self, spawned: Result<H, String>) -> (r: Result<Vec<Event>, StartError>)
        requires
            !old(self).occupied(),
        ensures
            final(self).slot() == start_slot(old(self).slot(), true, spawned.ok()),
            match spawned {
                Ok(h) => {
                    &&& final(self).slot() == Some(h)
                    &&& r matches Ok(es) && es@ == seq![Event::Status(Status::Starting)]
                },
                Err(cause) => {
                    &&& final(self).slot() is None
                    &&& r matches Err(StartError::SpawnFailed(c)) && c == cause
                },
            },
    {
        match spawned {
            Ok(h) => {
                self.slot = Some(h);
                let mut es: Vec<Event> = Vec::new();
                es.push(Event::Status(Status::Starting));
                Ok(es)
            },
            Err(cause) => Err(StartError::SpawnFailed(cause)),
        }
    }

    /// Ends a stop: empties the slot, handing out the handle that was in it,
    /// and emits the final `stopped` status and closing line.
    pub fn finish_stop(&mut self, graceful: bool) -> (r: (Option<H>, Vec<Event>))
        ensures
            final(self).slot() is None,
            r.0 == old(self).slot(),
            r.1@ == finish_events(graceful),
            count_stopped(r.1@) == 1,
    {
        let h = self.slot.take();
        let mut es: Vec<Event> = Vec::new();
        es.push(Event::Status(Status::Stopped));
        if graceful {
            es.push(Event::Note(Note::ExitedGracefully));
        } else {
            es.push(Event::Note(Note::Terminated));
        }
        proof {
            assert(es@ =~= finish_events(graceful));
            lemma_count_stopped_finish(graceful);
        }
        (h, es)
    }
}

/// The slot after one start attempt: `exists` tells whether the artifact
/// exists, `spawned` what spawning it gives (`None`: the spawn failed).
pub open spec fn start_slot<H>(slot: Option<H>, exists: bool, spawned: Option<H>) -> Option<H> {
    if slot is Some || !exists {
        slot
    } else {
        spawned
    }
}

/// The slot after a sequence of start attempts.
pub open spec fn starts_slot<H>(slot: Option<H>, attempts: Seq<(bool, Option<H>)>) -> Option<H>
    decreases attempts.len(),
{
    if attempts.len() == 0 {
        slot
    } else {
        starts_slot(start_slot(slot, attempts[0].0, attempts[0].1), attempts.drop_first())
    }
}

/// Once the slot holds a process, no sequence of start attempts changes it.
pub proof fn lemma_occupied_slot_kept<H>(slot: Option<H>, attempts: Seq<(bool, Option<H>)>)
    requires
        slot is Some,
    ensures
        starts_slot(slot, attempts) == slot,
    decreases attempts.len(),
{
    if attempts.len() > 0 {
        lemma_occupied_slot_kept(slot, attempts.drop_first());
    }
}

/// The events that close a stop.
pub open spec fn finish_events(graceful: bool) -> Seq<Event> {
    seq![
        Event::Status(Status::Stopped),
        Event::Note(if graceful { Note::ExitedGracefully } else { Note::Terminated }),
    ]
}

proof fn lemma_count_stopped_finish(graceful: bool)
    ensures
        count_stopped(finish_events(graceful)) == 1,
{
    let es = finish_events(graceful);
    assert(es.drop_last() =~= seq![Event::Status(Status::Stopped)]);
    assert(es.drop_last().drop_last() =~= Seq::<Event>::empty());
    reveal_with_fuel(count_stopped, 3);
}

} // verus!
