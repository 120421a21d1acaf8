use chargectl::daemon::{start, Daemon, DaemonPhase, DaemonState, POLL_INTERVAL_SECS};
use chargectl::error::{ChargeError, IoFailure};
use chargectl::protocol::{Node, Reply, Request};
use chargectl::sysfs::ThresholdPair;

/// Feeds the replies to the daemon one by one and collects the requests that
/// they answered.
fn drive(mut daemon: Daemon, replies: Vec<Reply>) -> (Daemon, Vec<Request>) {
    let mut asked = Vec::new();
    for reply in replies {
        match daemon.request() {
            Some(request) => asked.push(request),
            None => break,
        }
        daemon = daemon.step(reply);
    }
    (daemon, asked)
}

fn online() -> Reply {
    Reply::Contents(b"1\n".to_vec())
}

fn in_loop(start_threshold: u8, stop_threshold: u8) -> Daemon {
    let daemon = start(start_threshold, stop_threshold, None).unwrap();
    let (daemon, _) =
        drive(daemon, vec![Reply::Exists(true), Reply::Exists(true), Reply::Listening]);
    assert_eq!(daemon.phase, DaemonPhase::Waiting);
    daemon
}

#[test]
fn the_poll_interval_is_thirty_seconds() {
    assert_eq!(POLL_INTERVAL_SECS, 30);
}

#[test]
fn start_makes_a_daemon_that_checks_the_platform_first() {
    let daemon = start(40, 80, Some("bat1".to_string())).unwrap();
    assert_eq!(
        daemon,
        Daemon {
            thresholds: ThresholdPair { start: 40, stop: 80 },
            battery: "BAT1".to_string(),
            phase: DaemonPhase::Platform,
        }
    );
    assert_eq!(daemon.request(), Some(Request::Exists(Node::ClassRoot)));
    assert!(!daemon.is_finished());
    assert_eq!(daemon.into_result(), None);
}

#[test]
fn start_refuses_an_invalid_pair() {
    assert_eq!(start(80, 40, None), Err(ChargeError::InvalidThreshold));
    assert_eq!(start(40, 40, None), Err(ChargeError::InvalidThreshold));
    assert_eq!(start(40, 101, None), Err(ChargeError::InvalidThreshold));
    assert!(start(0, 100, None).is_ok());
}

#[test]
fn the_daemon_ends_on_an_unsupported_platform() {
    let daemon = start(40, 80, None).unwrap();
    let (daemon, asked) = drive(daemon, vec![Reply::Exists(false), Reply::Exists(true)]);
    assert_eq!(asked, vec![Request::Exists(Node::ClassRoot)]);
    assert!(daemon.is_finished());
    assert_eq!(daemon.request(), None);
    assert_eq!(daemon.into_result(), Some(Err(ChargeError::Unsupported)));
}

#[test]
fn the_daemon_ends_on_a_missing_battery() {
    let daemon = start(40, 80, Some("bat3".to_string())).unwrap();
    let (daemon, asked) = drive(daemon, vec![Reply::Exists(true), Reply::Exists(false)]);
    assert_eq!(asked, vec![Request::Exists(Node::ClassRoot), Request::Exists(Node::Battery)]);
    assert_eq!(
        daemon.into_result(),
        Some(Err(ChargeError::BatteryNotFound("BAT3".to_string())))
    );
}

#[test]
fn the_daemon_listens_before_it_waits() {
    let daemon = start(40, 80, None).unwrap();
    let (daemon, asked) =
        drive(daemon, vec![Reply::Exists(true), Reply::Exists(true), Reply::Listening]);
    assert_eq!(
        asked,
        vec![Request::Exists(Node::ClassRoot), Request::Exists(Node::Battery), Request::Listen]
    );
    assert_eq!(daemon.request(), Some(Request::Wait(30)));
}

#[test]
fn a_round_on_mains_power_writes_start_then_stop() {
    let (daemon, asked) =
        drive(in_loop(40, 80), vec![Reply::Elapsed, online(), Reply::Written, Reply::Written]);
    assert_eq!(
        asked,
        vec![
            Request::Wait(30),
            Request::Read(Node::AcOnline),
            Request::Write(Node::StartThreshold, 40),
            Request::Write(Node::StopThreshold, 80),
        ]
    );
    assert_eq!(daemon.phase, DaemonPhase::Waiting);
    assert_eq!(daemon.request(), Some(Request::Wait(30)));
}

#[test]
fn the_stop_signal_ends_the_daemon_at_once() {
    let (daemon, asked) = drive(in_loop(40, 80), vec![Reply::Stopped, Reply::Elapsed]);
    assert_eq!(asked, vec![Request::Wait(30)]);
    assert!(daemon.is_finished());
    assert_eq!(daemon.request(), None);
    assert_eq!(daemon.into_result(), Some(Ok(())));
}

#[test]
fn the_stop_signal_ends_the_daemon_after_many_rounds() {
    let mut replies = Vec::new();
    for _ in 0..50 {
        replies.extend([Reply::Elapsed, online(), Reply::Written, Reply::Written]);
    }
    replies.push(Reply::Stopped);
    let (daemon, asked) = drive(in_loop(40, 80), replies);
    assert_eq!(asked.len(), 201);
    assert_eq!(daemon.into_result(), Some(Ok(())));
}

#[test]
fn a_missing_power_flag_skips_the_round() {
    let (daemon, asked) = drive(
        in_loop(40, 80),
        vec![
            Reply::Elapsed,
            Reply::Failed(IoFailure::NotFound),
            Reply::Elapsed,
            Reply::Failed(IoFailure::PermissionDenied),
            Reply::Elapsed,
            Reply::Failed(IoFailure::Other("Input/output error (os error 5)".to_string())),
        ],
    );
    assert_eq!(
        asked,
        vec![
            Request::Wait(30),
            Request::Read(Node::AcOnline),
            Request::Wait(30),
            Request::Read(Node::AcOnline),
            Request::Wait(30),
            Request::Read(Node::AcOnline),
        ]
    );
    assert!(!daemon.is_finished());
    assert_eq!(daemon.request(), Some(Request::Wait(30)));
}

#[test]
fn the_daemon_writes_again_once_the_power_flag_is_back() {
    let (daemon, asked) = drive(
        in_loop(40, 80),
        vec![
            Reply::Elapsed,
            Reply::Failed(IoFailure::NotFound),
            Reply::Elapsed,
            online(),
            Reply::Written,
        ],
    );
    assert_eq!(asked[4], Request::Write(Node::StartThreshold, 40));
    assert_eq!(daemon.request(), Some(Request::Write(Node::StopThreshold, 80)));
}

#[test]
fn no_mains_power_skips_the_round() {
    let (daemon, asked) = drive(
        in_loop(40, 80),
        vec![Reply::Elapsed, Reply::Contents(b"0\n".to_vec()), Reply::Stopped],
    );
    assert_eq!(
        asked,
        vec![Request::Wait(30), Request::Read(Node::AcOnline), Request::Wait(30)]
    );
    assert_eq!(daemon.into_result(), Some(Ok(())));
}

#[test]
fn a_malformed_power_flag_ends_the_daemon() {
    let (daemon, _) =
        drive(in_loop(40, 80), vec![Reply::Elapsed, Reply::Contents(b"yes".to_vec())]);
    assert_eq!(daemon.into_result(), Some(Err(ChargeError::MalformedKernelValue)));
}

#[test]
fn a_revoked_permission_ends_the_daemon_on_the_next_round() {
    let (daemon, asked) = drive(
        in_loop(40, 80),
        vec![
            Reply::Elapsed,
            online(),
            Reply::Written,
            Reply::Written,
            Reply::Elapsed,
            online(),
            Reply::Failed(IoFailure::PermissionDenied),
            Reply::Elapsed,
        ],
    );
    assert_eq!(asked.len(), 7);
    assert_eq!(asked[6], Request::Write(Node::StartThreshold, 40));
    assert_eq!(daemon.request(), None);
    assert_eq!(daemon.into_result(), Some(Err(ChargeError::Io(IoFailure::PermissionDenied))));
}

#[test]
fn a_failed_stop_write_ends_the_daemon() {
    let failure = IoFailure::Other("No such device (os error 19)".to_string());
    let (daemon, asked) = drive(
        in_loop(40, 80),
        vec![Reply::Elapsed, online(), Reply::Written, Reply::Failed(failure.clone())],
    );
    assert_eq!(asked[3], Request::Write(Node::StopThreshold, 80));
    assert_eq!(daemon.into_result(), Some(Err(ChargeError::Io(failure))));
}

#[test]
fn a_terminated_daemon_stays_terminated() {
    let (daemon, _) = drive(in_loop(40, 80), vec![Reply::Stopped]);
    let daemon = daemon.step(Reply::Elapsed).step(Reply::Written).step(Reply::Exists(true));
    assert_eq!(daemon.phase, DaemonPhase::Terminated(Ok(())));
}

#[test]
fn the_daemon_ignores_replies_that_do_not_fit() {
    let daemon = in_loop(40, 80);
    let daemon = daemon.step(Reply::Written).step(Reply::Exists(false)).step(Reply::Listening);
    assert_eq!(daemon.phase, DaemonPhase::Waiting);
    let daemon = daemon.step(Reply::Elapsed).step(Reply::Stopped).step(Reply::Written);
    assert_eq!(daemon.phase, DaemonPhase::Power);
    let daemon = daemon.step(online()).step(Reply::Stopped).step(Reply::Elapsed);
    assert_eq!(daemon.phase, DaemonPhase::WritingStart);
}

#[test]
fn the_daemon_goes_through_its_stages() {
    let daemon = start(40, 80, None).unwrap();
    assert_eq!(daemon.current_state(), DaemonState::Initializing);
    let daemon = daemon.step(Reply::Exists(true));
    assert_eq!(daemon.current_state(), DaemonState::Initializing);
    let daemon = daemon.step(Reply::Exists(true));
    assert_eq!(daemon.current_state(), DaemonState::Running);
    let (daemon, _) = drive(
        daemon,
        vec![Reply::Listening, Reply::Elapsed, online(), Reply::Written, Reply::Written],
    );
    assert_eq!(daemon.current_state(), DaemonState::Running);
    let daemon = daemon.step(Reply::Stopped);
    assert_eq!(daemon.current_state(), DaemonState::Terminated);
    let failed = start(40, 80, None).unwrap().step(Reply::Exists(false));
    assert_eq!(failed.current_state(), DaemonState::Terminated);
}

#[test]
fn a_rejected_write_ends_the_daemon() {
    let failure = IoFailure::Other("Invalid argument (os error 22)".to_string());
    let (daemon, asked) = drive(
        in_loop(40, 80),
        vec![Reply::Elapsed, online(), Reply::Unwritten(failure.clone()), Reply::Elapsed],
    );
    assert_eq!(asked.len(), 3);
    assert_eq!(daemon.request(), None);
    assert_eq!(daemon.into_result(), Some(Err(ChargeError::Io(failure))));
}
