use vstd::prelude::*;
use crate::shutdown::ShutdownError;

verus! {

/// The externally observed status of the supervised process.
#[derive(Clone, Copy, Debug, PartialEq, Eq, Structural)]
pub enum Status {
    Starting,
    Running,
    Stopped,
}

impl Status {
    /// The wire name of the status.
    pub fn as_str(&self) -> (r: &'static str)
        ensures
            r@ == status_name(*self),
    {
        match self {
            Status::Starting => "starting",
            Status::Running => "running",
            Status::Stopped => "stopped",
        }
    }
}

pub open spec fn status_name(s: Status) -> Seq<char> {
    match s {
        Status::Starting => "starting"@,
        Status::Running => "running"@,
        Status::Stopped => "stopped"@,
    }
}

/// A narration line that the supervisor emits while stopping the process.
#[derive(Debug)]
pub enum Note {
    ShutdownBegun,
    ShutdownAccepted,
    ShutdownRefused(ShutdownError),
    WaitingForExit(u32),
    PortReleased,
    WaitTimedOut,
    ExitedGracefully,
    Terminated,
}

/// What the core hands to the presentation layer.
#[derive(Debug)]
pub enum Event {
    Status(Status),
    /// A line read from one of the process's streams.
    Line(String),
    Note(Note),
}

/// Number of `stopped` status events in `es`.
pub open spec fn count_stopped(es: Seq<Event>) -> nat
    decreases es.len(),
{
    if es.len() == 0 {
        0
    } else {
        count_stopped(es.drop_last()) + if es.last() == Event::Status(Status::Stopped) {
            1nat
        } else {
            0nat
        }
    }
}

/// Number of `running` status events in `es`.
pub open spec fn count_running(es: Seq<Event>) -> nat
    decreases es.len(),
{
    if es.len() == 0 {
        0
    } else {
        count_running(es.drop_last()) + if es.last() == Event::Status(Status::Running) {
            1nat
        } else {
            0nat
        }
    }
}

} // verus!
