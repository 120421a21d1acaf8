//! The threshold daemon: it stores the wanted pair again at every poll
//! interval, because the kernel forgets it on suspend, hotplug and driver
//! reload, and it ends when the operator's stop signal comes.
//!
//! The daemon decides; its host waits, reads and writes. See `protocol`.

use crate::error::{ChargeError, IoFailure};
use crate::protocol::{Answer, Node, Operation, Reply, Request};
use crate::sysfs::{
    battery_name, battery_name_text, battery_present, is_ac_power_online, is_battery_present,
    is_platform_supported, power_online, reading, valid_thresholds, ThresholdPair,
};
use vstd::prelude::*;

verus! {

/// Seconds between two rounds of the daemon.
pub const POLL_INTERVAL_SECS: u64 = 30;

/// What the daemon is busy with.
#[derive(Debug, PartialEq, Eq)]
pub enum DaemonPhase {
    /// Asking whether the class directory exists.
    Platform,
    /// Asking whether the battery's directory exists.
    Battery,
    /// Asking the host to listen for the stop signal.
    Arming,
    /// Waiting for the stop signal or the end of the interval.
    Waiting,
    /// Asking for the online flag of the mains adapter.
    Power,
    /// Storing the start threshold.
    WritingStart,
    /// Storing the stop threshold.
    WritingStop,
    /// Over, with this result.
    Terminated(Result<(), ChargeError>),
}

/// The stage of the daemon's life.
///
/// A daemon at rest is `Initializing`, `Running` or `Terminated`. It is
/// `Stopping` only in passing, inside the step that takes the stop signal:
/// that step leaves the loop and ends the daemon with success, and asks the
/// host for nothing in between (see `passage`).
#[derive(Debug, Clone, Copy, PartialEq, Eq, Structural)]
pub enum DaemonState {
    /// Checking the platform and the battery; the loop has not begun.
    Initializing,
    /// In the loop.
    Running,
    /// Out of the loop on a stop signal, about to end with success.
    Stopping,
    /// Over.
    Terminated,
}

/// The stage `to` can follow the stage `from` directly. A failure ends the
/// daemon from where it is; only a stop signal leads through `Stopping`.
pub open spec fn follows(from: DaemonState, to: DaemonState) -> bool {
    match (from, to) {
        (DaemonState::Initializing, DaemonState::Running) => true,
        (DaemonState::Initializing, DaemonState::Terminated) => true,
        (DaemonState::Running, DaemonState::Stopping) => true,
        (DaemonState::Running, DaemonState::Terminated) => true,
        (DaemonState::Stopping, DaemonState::Terminated) => true,
        _ => false,
    }
}

/// The daemon for one battery and one pair of thresholds.
///
/// It is made by `start` and then driven by the host: while `request` names
/// something to do, the host does it and passes the outcome to `step`.
#[derive(Debug, PartialEq, Eq)]
pub struct Daemon {
    pub thresholds: ThresholdPair,
    /// The battery's name as the kernel lists it.
    pub battery: String,
    pub phase: DaemonPhase,
}

impl Operation for Daemon {
    /// What the daemon asks of the host next; nothing once it is over.
    open spec fn pending(self) -> Option<Request> {
        match self.phase {
            DaemonPhase::Platform => Some(Request::Exists(Node::ClassRoot)),
            DaemonPhase::Battery => Some(Request::Exists(Node::Battery)),
            DaemonPhase::Arming => Some(Request::Listen),
            DaemonPhase::Waiting => Some(Request::Wait(POLL_INTERVAL_SECS)),
            DaemonPhase::Power => Some(Request::Read(Node::AcOnline)),
            DaemonPhase::WritingStart => Some(
                Request::Write(Node::StartThreshold, self.thresholds.start),
            ),
            DaemonPhase::WritingStop => Some(
                Request::Write(Node::StopThreshold, self.thresholds.stop),
            ),
            DaemonPhase::Terminated(_) => None,
        }
    }

    /// The daemon after the host's answer.
    ///
    /// While initializing, a missing class directory or battery ends the
    /// daemon with its error. In the loop, the stop signal ends it with
    /// success, and nothing else does. When the interval has passed it asks
    /// for the adapter's online flag: if that cannot be read, or mains power
    /// is off, it skips the round; otherwise it stores start, then stop. A
    /// threshold file that cannot be opened or written ends the daemon with
    /// that failure. An answer that does
    /// not fit the pending request changes nothing.
    open spec fn next(self, answer: Answer) -> Daemon {
        match (self.phase, answer) {
            (DaemonPhase::Platform, Answer::Exists(found)) => if found {
                self.at(DaemonPhase::Battery)
            } else {
                self.at(DaemonPhase::Terminated(Err(ChargeError::Unsupported)))
            },
            (DaemonPhase::Battery, Answer::Exists(found)) => match battery_present(
                self.battery,
                found,
            ) {
                Ok(()) => self.at(DaemonPhase::Arming),
                Err(error) => self.at(DaemonPhase::Terminated(Err(error))),
            },
            (DaemonPhase::Arming, Answer::Listening) => self.at(DaemonPhase::Waiting),
            (DaemonPhase::Waiting, Answer::Stopped) => self.at(DaemonPhase::Terminated(Ok(()))),
            (DaemonPhase::Waiting, Answer::Elapsed) => self.at(DaemonPhase::Power),
            (DaemonPhase::Power, Answer::Contents(bytes)) => self.at(
                Self::after_power_check(power_online(reading(Ok(bytes)))),
            ),
            (DaemonPhase::Power, Answer::Failed(failure)) => self.at(
                Self::after_power_check(power_online(reading(Err(failure)))),
            ),
            (DaemonPhase::WritingStart, Answer::Written) => self.at(DaemonPhase::WritingStop),
            (DaemonPhase::WritingStop, Answer::Written) => self.at(DaemonPhase::Waiting),
            (DaemonPhase::WritingStart, Answer::Failed(failure)) => self.at(
                DaemonPhase::Terminated(Err(ChargeError::Io(failure))),
            ),
            (DaemonPhase::WritingStop, Answer::Failed(failure)) => self.at(
                DaemonPhase::Terminated(Err(ChargeError::Io(failure))),
            ),
            (DaemonPhase::WritingStart, Answer::Unwritten(failure)) => self.at(
                DaemonPhase::Terminated(Err(ChargeError::Io(failure))),
            ),
            (DaemonPhase::WritingStop, Answer::Unwritten(failure)) => self.at(
                DaemonPhase::Terminated(Err(ChargeError::Io(failure))),
            ),
            _ => self,
        }
    }
}

impl Daemon {
    /// The pair keeps the rule.
    pub open spec fn wf(self) -> bool {
        self.thresholds.wf()
    }

    /// The stage of life that the phase belongs to.
    pub open spec fn state(self) -> DaemonState {
        match self.phase {
            DaemonPhase::Platform | DaemonPhase::Battery => DaemonState::Initializing,
            DaemonPhase::Terminated(_) => DaemonState::Terminated,
            _ => DaemonState::Running,
        }
    }

    /// The stages that the step on `answer` leads through, from the one the
    /// daemon is in to the one it ends in.
    pub open spec fn passage(self, answer: Answer) -> Seq<DaemonState> {
        let from = self.state();
        let to = self.next(answer).state();
        if self.phase == DaemonPhase::Waiting && answer == Answer::Stopped {
            seq![from, DaemonState::Stopping, to]
        } else if from == to {
            seq![from]
        } else {
            seq![from, to]
        }
    }

    /// The result, once the daemon is over.
    pub open spec fn outcome(self) -> Option<Result<(), ChargeError>> {
        match self.phase {
            DaemonPhase::Terminated(result) => Some(result),
            _ => None,
        }
    }

    /// The daemon in the phase `phase`.
    pub open spec fn at(self, phase: DaemonPhase) -> Daemon {
        Daemon { phase, ..self }
    }

    /// Where the daemon goes once the adapter's online flag is known or known
    /// to be out of reach: on to the writes where mains power is connected,
    /// to its end where the flag holds no number, back to waiting otherwise.
    pub open spec fn after_power_check(check: Result<(), ChargeError>) -> DaemonPhase {
        match check {
            Ok(()) => DaemonPhase::WritingStart,
            Err(ChargeError::MalformedKernelValue) => DaemonPhase::Terminated(
                Err(ChargeError::MalformedKernelValue),
            ),
            Err(_) => DaemonPhase::Waiting,
        }
    }

    /// What to do next, if anything is left to do.
    pub fn request(&self) -> (request: Option<Request>)
        ensures
            request == self.pending(),
    {
        match &self.phase {
            DaemonPhase::Platform => Some(Request::Exists(Node::ClassRoot)),
            DaemonPhase::Battery => Some(Request::Exists(Node::Battery)),
            DaemonPhase::Arming => Some(Request::Listen),
            DaemonPhase::Waiting => Some(Request::Wait(POLL_INTERVAL_SECS)),
            DaemonPhase::Power => Some(Request::Read(Node::AcOnline)),
            DaemonPhase::WritingStart => Some(
                Request::Write(Node::StartThreshold, self.thresholds.start),
            ),
            DaemonPhase::WritingStop => Some(
                Request::Write(Node::StopThreshold, self.thresholds.stop),
            ),
            DaemonPhase::Terminated(_) => None,
        }
    }

    /// Takes the host's reply to the pending request and moves on.
    pub fn step(self, reply: Reply) -> (next: Daemon)
        ensures
            next == self.next(reply@),
    {
        let Daemon { thresholds, battery, phase } = self;
        let phase = match (phase, reply) {
            (DaemonPhase::Platform, Reply::Exists(found)) => {
                match is_platform_supported(found) {
                    Ok(()) => DaemonPhase::Battery,
                    Err(error) => DaemonPhase::Terminated(Err(error)),
                }
            },
            (DaemonPhase::Battery, Reply::Exists(found)) => {
                match is_battery_present(&battery, found) {
                    Ok(()) => DaemonPhase::Arming,
                    Err(error) => DaemonPhase::Terminated(Err(error)),
                }
            },
            (DaemonPhase::Arming, Reply::Listening) => DaemonPhase::Waiting,
            (DaemonPhase::Waiting, Reply::Stopped) => DaemonPhase::Terminated(Ok(())),
            (DaemonPhase::Waiting, Reply::Elapsed) => DaemonPhase::Power,
            (DaemonPhase::Power, Reply::Contents(bytes)) => power_checked(
                is_ac_power_online(Ok(bytes)),
            ),
            (DaemonPhase::Power, Reply::Failed(failure)) => power_checked(
                is_ac_power_online(Err(failure)),
            ),
            (DaemonPhase::WritingStart, Reply::Written) => DaemonPhase::WritingStop,
            (DaemonPhase::WritingStop, Reply::Written) => DaemonPhase::Waiting,
            (DaemonPhase::WritingStart, Reply::Failed(failure)) => DaemonPhase::Terminated(
                Err(ChargeError::Io(failure)),
            ),
            (DaemonPhase::WritingStop, Reply::Failed(failure)) => DaemonPhase::Terminated(
                Err(ChargeError::Io(failure)),
            ),
            (DaemonPhase::WritingStart, Reply::Unwritten(failure)) => DaemonPhase::Terminated(
                Err(ChargeError::Io(failure)),
            ),
            (DaemonPhase::WritingStop, Reply::Unwritten(failure)) => DaemonPhase::Terminated(
                Err(ChargeError::Io(failure)),
            ),
            (phase, _) => phase,
        };
        Daemon { thresholds, battery, phase }
    }

    /// Tells whether the daemon is over.
    pub fn is_finished(&self) -> (finished: bool)
        ensures
            finished == self.outcome().is_some(),
    {
        match &self.phase {
            DaemonPhase::Terminated(_) => true,
            _ => false,
        }
    }

    /// The stage of life that the daemon is in.
    pub fn current_state(&self) -> (state: DaemonState)
        ensures
            state == self.state(),
    {
        match &self.phase {
            DaemonPhase::Platform => DaemonState::Initializing,
            DaemonPhase::Battery => DaemonState::Initializing,
            DaemonPhase::Terminated(_) => DaemonState::Terminated,
            _ => DaemonState::Running,
        }
    }

    /// The result of the daemon; none while it is not over.
    pub fn into_result(self) -> (result: Option<Result<(), ChargeError>>)
        ensures
            result == self.outcome(),
    {
        match self.phase {
            DaemonPhase::Terminated(result) => Some(result),
            _ => None,
        }
    }
}

/// Chooses the phase that follows the check of mains power.
fn power_checked(check: Result<(), ChargeError>) -> (phase: DaemonPhase)
    ensures
        phase == Daemon::after_power_check(check),
{
    match check {
        Ok(()) => DaemonPhase::WritingStart,
        Err(ChargeError::MalformedKernelValue) => DaemonPhase::Terminated(
            Err(ChargeError::MalformedKernelValue),
        ),
        Err(_) => DaemonPhase::Waiting,
    }
}

/// Begins the daemon that keeps the two thresholds stored for the battery
/// that the caller means.
///
/// A pair that breaks the rule is refused here, before the host is asked for
/// anything, so the daemon never enters its loop on it.
pub fn start(start_threshold: u8, stop_threshold: u8, battery: Option<String>) -> (res: Result<
    Daemon,
    ChargeError,
>)
    ensures
        match res {
            Ok(daemon) => {
                &&& valid_thresholds(start_threshold, stop_threshold)
                &&& daemon.thresholds == ThresholdPair {
                    start: start_threshold,
                    stop: stop_threshold,
                }
                &&& daemon.battery@ == battery_name_text(battery)
                &&& daemon.phase == DaemonPhase::Platform
            },
            Err(error) => !valid_thresholds(start_threshold, stop_threshold) && error
                == ChargeError::InvalidThreshold,
        },
{
    match ThresholdPair::new(start_threshold, stop_threshold) {
        Ok(thresholds) => Ok(
            Daemon { thresholds, battery: battery_name(battery), phase: DaemonPhase::Platform },
        ),
        Err(error) => Err(error),
    }
}

/// The stop signal ends a waiting daemon at once and with success: no
/// request stands between the signal and the end.
pub proof fn theorem_stop_signal_ends_daemon(daemon: Daemon)
    requires
        daemon.phase == DaemonPhase::Waiting,
    ensures
        daemon.next(Answer::Stopped).outcome() == Some(Ok::<(), ChargeError>(())),
        daemon.next(Answer::Stopped).pending() is None,
{
}

/// Nothing but the stop signal ends the daemon with success.
pub proof fn theorem_success_only_on_stop_signal(daemon: Daemon, answer: Answer)
    requires
        daemon.outcome() is None,
        daemon.next(answer).outcome() == Some(Ok::<(), ChargeError>(())),
    ensures
        daemon.phase == DaemonPhase::Waiting,
        answer == Answer::Stopped,
{
}

/// The life of a daemon runs Initializing, Running, Stopping, Terminated,
/// with a short cut to Terminated for failures: every step leads along
/// `follows`, a daemon ends with success exactly when its last step led
/// through `Stopping`, and a step that ends it otherwise ends it with an
/// error.
pub proof fn theorem_lifecycle(daemon: Daemon, answer: Answer)
    ensures
        ({
            let passage = daemon.passage(answer);
            let after = daemon.next(answer);
            &&& passage.first() == daemon.state()
            &&& passage.last() == after.state()
            &&& forall|i: int|
                0 <= i < passage.len() - 1 ==> follows(#[trigger] passage[i], passage[i + 1])
            &&& passage.contains(DaemonState::Stopping) <==> daemon.outcome() is None
                && after.outcome() == Some(Ok::<(), ChargeError>(()))
            &&& daemon.outcome() is None && after.outcome() is Some && !passage.contains(
                DaemonState::Stopping,
            ) ==> after.outcome()->0 is Err
        }),
{
    let passage = daemon.passage(answer);
    if daemon.phase == DaemonPhase::Waiting && answer == Answer::Stopped {
        assert(passage[1] == DaemonState::Stopping);
    } else {
        assert forall|i: int| 0 <= i < passage.len() implies passage[i]
            != DaemonState::Stopping by {}
    }
}

/// A daemon that is over stays as it is, whatever it is told.
pub proof fn theorem_terminated_stays(daemon: Daemon, answer: Answer)
    requires
        daemon.outcome() is Some,
    ensures
        daemon.next(answer) == daemon,
{
}

/// Where the adapter's online flag cannot be read, the daemon skips the
/// round: it goes back to waiting and stays in its loop.
pub proof fn theorem_unreadable_power_skips_round(daemon: Daemon, failure: IoFailure)
    requires
        daemon.phase == DaemonPhase::Power,
    ensures
        daemon.next(Answer::Failed(failure)).phase == DaemonPhase::Waiting,
        daemon.next(Answer::Failed(failure)).state() == DaemonState::Running,
{
}

/// A write that fails ends the daemon with that failure, whether the file
/// could not be opened or could not be written.
pub proof fn theorem_failed_write_ends_daemon(daemon: Daemon, failure: IoFailure)
    requires
        daemon.phase == DaemonPhase::WritingStart || daemon.phase == DaemonPhase::WritingStop,
    ensures
        daemon.next(Answer::Failed(failure)).outcome() == Some(
            Err::<(), ChargeError>(ChargeError::Io(failure)),
        ),
        daemon.next(Answer::Unwritten(failure)).outcome() == Some(
            Err::<(), ChargeError>(ChargeError::Io(failure)),
        ),
{
}

/// A daemon has nothing pending exactly when it is over.
pub proof fn theorem_over_when_nothing_pending(daemon: Daemon)
    ensures
        daemon.pending() is None <==> daemon.outcome() is Some,
{
}

/// The daemon writes only what it was started with, and only after it has
/// seen mains power connected in the same round: a write is pending exactly
/// in the two writing phases, start before stop.
pub proof fn theorem_writes_follow_power_check(daemon: Daemon, answer: Answer)
    requires
        !(daemon.pending() is Some && daemon.pending()->0 is Write),
        daemon.next(answer).pending() is Some,
        daemon.next(answer).pending()->0 is Write,
    ensures
        daemon.phase == DaemonPhase::Power,
        answer is Contents,
        power_online(reading(Ok(answer->Contents_0))) is Ok,
        daemon.next(answer).pending() == Some(
            Request::Write(Node::StartThreshold, daemon.thresholds.start),
        ),
{
}

} // verus!
