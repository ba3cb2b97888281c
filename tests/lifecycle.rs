use server_manager::events::{Event, Note, Status};
use server_manager::http::HttpError;
use server_manager::pump::{LogPump, StreamRole, READY_MARKER};
use server_manager::shutdown::{classify_response, negotiation_outcome, ShutdownError};
use server_manager::stop::{StopAction, Stopper};
use server_manager::supervisor::{parent_relative, StartError, Supervisor, MAX_PROBES};

fn is_status(e: &Event, s: Status) -> bool {
    matches!(e, Event::Status(x) if *x == s)
}

fn count_status(es: &[Event], s: Status) -> usize {
    es.iter().filter(|e| is_status(e, s)).count()
}

#[test]
fn start_spawns_and_announces_starting() {
    let mut sup: Supervisor<u32> = Supervisor::new();
    assert!(sup.start_gate("server.jar", true).is_ok());
    let es = sup.complete_start(Ok(7)).unwrap();
    assert_eq!(es.len(), 1);
    assert!(is_status(&es[0], Status::Starting));
    assert!(sup.is_occupied());
}

#[test]
fn second_start_is_refused_and_keeps_handle() {
    let mut sup: Supervisor<u32> = Supervisor::new();
    sup.start_gate("server.jar", true).unwrap();
    sup.complete_start(Ok(7)).unwrap();
    for exists in [true, false] {
        assert!(matches!(sup.start_gate("other.jar", exists), Err(StartError::AlreadyRunning)));
    }
    let (h, _) = sup.finish_stop(true);
    assert_eq!(h, Some(7));
}

#[test]
fn missing_artifact_is_refused() {
    let sup: Supervisor<u32> = Supervisor::new();
    let r = sup.start_gate("nothing.jar", false);
    assert!(matches!(r, Err(StartError::ArtifactNotFound(ref p)) if p == "nothing.jar"));
}

#[test]
fn failed_spawn_leaves_slot_empty() {
    let mut sup: Supervisor<u32> = Supervisor::new();
    let r = sup.complete_start(Err("no java".to_string()));
    assert!(matches!(r, Err(StartError::SpawnFailed(ref c)) if c == "no java"));
    assert!(!sup.is_occupied());
}

#[test]
fn parent_marker_is_stripped() {
    assert_eq!(parent_relative("../server.jar"), Some("server.jar".to_string()));
    assert_eq!(parent_relative("server.jar"), None);
    assert_eq!(parent_relative(".."), None);
    assert_eq!(parent_relative("../"), Some(String::new()));
}

#[test]
fn readiness_marker_announces_running_once() {
    let mut pump = LogPump::new(StreamRole::Output);
    let line = format!("2024 INFO {} ok", READY_MARKER);
    let first = pump.on_line(line.clone());
    assert_eq!(first.len(), 2);
    assert!(is_status(&first[0], Status::Running));
    assert!(matches!(&first[1], Event::Line(l) if *l == line));
    let second = pump.on_line(line.clone());
    assert_eq!(second.len(), 1);
    assert!(matches!(&second[0], Event::Line(l) if *l == line));
}

#[test]
fn plain_lines_are_forwarded() {
    let mut pump = LogPump::new(StreamRole::Output);
    let es = pump.on_line("Starting application".to_string());
    assert_eq!(es.len(), 1);
    assert!(matches!(&es[0], Event::Line(l) if l == "Starting application"));
}

#[test]
fn error_stream_never_announces() {
    let mut pump = LogPump::new(StreamRole::Error);
    let es = pump.on_line(READY_MARKER.to_string());
    assert_eq!(es.len(), 1);
    assert!(matches!(&es[0], Event::Line(_)));
}

#[test]
fn start_then_ready_scenario() {
    let mut sup: Supervisor<u32> = Supervisor::new();
    sup.start_gate("server.jar", true).unwrap();
    let mut seen = sup.complete_start(Ok(1)).unwrap();
    let mut pump = LogPump::new(StreamRole::Output);
    seen.extend(pump.on_line("booting".to_string()));
    seen.extend(pump.on_line(READY_MARKER.to_string()));
    seen.extend(pump.on_line("serving".to_string()));
    let starting = seen.iter().position(|e| is_status(e, Status::Starting)).unwrap();
    let running = seen.iter().position(|e| is_status(e, Status::Running)).unwrap();
    assert!(starting < running);
    assert_eq!(count_status(&seen, Status::Starting), 1);
    assert_eq!(count_status(&seen, Status::Running), 1);
}

/// Runs a stop against a handle spy, with the given negotiation outcome and
/// port answers; returns the events, the probes made and whether a kill was
/// asked for.
fn run_stop(outcome: Result<(), ShutdownError>, answers: &[bool]) -> (Vec<Event>, usize, bool, Option<u32>) {
    let mut sup: Supervisor<u32> = Supervisor::new();
    sup.complete_start(Ok(9)).unwrap();
    let (mut st, step) = Stopper::begin();
    let mut events = step.events;
    assert_eq!(step.action, StopAction::Negotiate);
    let mut step = st.on_negotiated(outcome);
    events.extend(step.events);
    let mut probes = 0;
    let mut action = step.action;
    while action == StopAction::Probe {
        let open = answers[probes];
        probes += 1;
        step = st.on_probe(open);
        events.extend(step.events);
        action = step.action;
    }
    let killed = action == StopAction::ForceKill;
    let (h, closing) = sup.finish_stop(action == StopAction::Reap);
    events.extend(closing);
    assert!(!sup.is_occupied());
    (events, probes, killed, h)
}

#[test]
fn graceful_stop_scenario() {
    let outcome = classify_response("HTTP/1.1 200 OK\r\n\r\n");
    let (events, probes, killed, h) = run_stop(outcome, &[true, false]);
    assert_eq!(probes, 2);
    assert!(!killed);
    assert_eq!(h, Some(9));
    assert_eq!(count_status(&events, Status::Stopped), 1);
    assert!(matches!(events.last(), Some(Event::Note(Note::ExitedGracefully))));
}

#[test]
fn refused_connection_kills_without_polling() {
    let outcome = negotiation_outcome(Err(HttpError::ConnectionFailed("localhost:8080: refused".to_string())));
    let (events, probes, killed, _) = run_stop(outcome, &[]);
    assert_eq!(probes, 0);
    assert!(killed);
    assert_eq!(count_status(&events, Status::Stopped), 1);
    assert!(!events.iter().any(|e| matches!(e, Event::Note(Note::WaitingForExit(_)))));
}

#[test]
fn poll_times_out_after_fifteen_probes() {
    let answers = vec![true; 20];
    let (events, probes, killed, _) = run_stop(Ok(()), &answers);
    assert_eq!(probes, MAX_PROBES as usize);
    assert_eq!(probes, 15);
    assert!(killed);
    assert_eq!(count_status(&events, Status::Stopped), 1);
    assert!(events.iter().any(|e| matches!(e, Event::Note(Note::WaitTimedOut))));
    assert!(events.iter().any(|e| matches!(e, Event::Note(Note::WaitingForExit(15)))));
}

#[test]
fn poll_stops_at_first_closed_port() {
    let (_, probes, killed, _) = run_stop(Ok(()), &[false, true, true]);
    assert_eq!(probes, 1);
    assert!(!killed);
}

#[test]
fn stop_on_empty_slot_still_reports_stopped() {
    let mut sup: Supervisor<u32> = Supervisor::new();
    let (h, es) = sup.finish_stop(false);
    assert_eq!(h, None);
    assert_eq!(count_status(&es, Status::Stopped), 1);
    assert!(!sup.is_occupied());
}

#[test]
fn status_names() {
    assert_eq!(Status::Starting.as_str(), "starting");
    assert_eq!(Status::Running.as_str(), "running");
    assert_eq!(Status::Stopped.as_str(), "stopped");
}
