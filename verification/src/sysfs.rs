//! The kernel's power-supply class: its paths, the values in its files, the
//! rule for a threshold pair, and the two one-shot operations on a battery.

use crate::decimal::{encode, parse, parse_percentage};
use crate::error::{ChargeError, EveryNameError, IoFailure, StartFirstError};
use crate::model::{
    comes_to_get_result, comes_to_set_result, theorem_comes_to_get_result,
    theorem_comes_to_set_result,
};
use crate::protocol::{Answer, Node, Operation, Reply, Request};
use vstd::prelude::*;
use vstd::string::*;

verus! {

/// Directory under which the kernel lists every power supply.
pub const CLASS_POWER_SUPPLY: &'static str = "/sys/class/power_supply/";

/// File of a battery that holds the level below which charging resumes.
pub const THRESHOLD_START: &'static str = "charge_control_start_threshold";

/// File of a battery that holds the level at which charging halts.
pub const THRESHOLD_STOP: &'static str = "charge_control_end_threshold";

/// Name of the start threshold file with older drivers.
pub const LEGACY_THRESHOLD_START: &'static str = "charge_start_threshold";

/// Name of the stop threshold file with older drivers.
pub const LEGACY_THRESHOLD_STOP: &'static str = "charge_stop_threshold";

/// Online flag of the mains adapter, below the class directory.
pub const AC_ONLINE: &'static str = "AC/online";

/// The battery that is meant where none is named.
pub const DEFAULT_BATTERY: &'static str = "BAT0";

/// Largest percentage that a threshold can take.
pub const THRESHOLD_MAX: u8 = 100;

/// Start threshold that lets a battery charge until it is full.
pub const FULL_CHARGE_START: u8 = 96;

/// Stop threshold that lets a battery charge until it is full.
pub const FULL_CHARGE_STOP: u8 = 100;

/// The rule for a pair of thresholds: `start < stop <= 100`. A start of 0 is
/// in order and means that the battery always charges.
pub open spec fn valid_thresholds(start: u8, stop: u8) -> bool {
    start < stop && stop <= THRESHOLD_MAX
}

/// Holds a pair of thresholds to the rule, before anything touches a file.
pub fn validate_thresholds(start: u8, stop: u8) -> (res: Result<(), ChargeError>)
    ensures
        res is Ok <==> valid_thresholds(start, stop),
        res is Err ==> res == Err::<(), ChargeError>(ChargeError::InvalidThreshold),
{
    if start >= stop || stop > THRESHOLD_MAX {
        return Err(ChargeError::InvalidThreshold);
    }
    Ok(())
}

/// A start and a stop threshold that keep the rule.
#[derive(Debug, Clone, Copy, PartialEq, Eq, Structural)]
pub struct ThresholdPair {
    pub start: u8,
    pub stop: u8,
}

impl ThresholdPair {
    /// The pair keeps the rule.
    pub open spec fn wf(self) -> bool {
        valid_thresholds(self.start, self.stop)
    }

    /// The pair of `start` and `stop`, if they keep the rule.
    pub fn new(start: u8, stop: u8) -> (res: Result<ThresholdPair, ChargeError>)
        ensures
            res == (if valid_thresholds(start, stop) {
                Ok::<ThresholdPair, ChargeError>(ThresholdPair { start, stop })
            } else {
                Err::<ThresholdPair, ChargeError>(ChargeError::InvalidThreshold)
            }),
    {
        match validate_thresholds(start, stop) {
            Ok(()) => Ok(ThresholdPair { start, stop }),
            Err(error) => Err(error),
        }
    }
}

/// The upper-case form of an ASCII letter; any other character is itself.
pub open spec fn upper(c: char) -> char {
    if 'a' <= c && c <= 'z' {
        ((c as u32) - 32) as char
    } else {
        c
    }
}

/// `text` with each ASCII letter in upper case.
pub open spec fn ascii_uppercase(text: Seq<char>) -> Seq<char> {
    Seq::new(text.len(), |i: int| upper(text[i]))
}

/// The standard library's `str::to_ascii_uppercase`. Trusted: as documented,
/// the result has the letters `a` to `z` replaced by `A` to `Z` and every
/// other character unchanged.
#[verifier::external_body]
fn to_ascii_uppercase(text: &str) -> (raised: String)
    ensures
        raised@ == ascii_uppercase(text@),
{
    text.to_ascii_uppercase()
}

/// The name under which the kernel lists the battery that the caller means:
/// the given name in upper case, or the default battery where none is given.
pub open spec fn battery_name_text(battery: Option<String>) -> Seq<char> {
    match battery {
        Some(name) => ascii_uppercase(name@),
        None => DEFAULT_BATTERY@,
    }
}

/// Normalises the caller's name for a battery.
pub fn battery_name(battery: Option<String>) -> (name: String)
    ensures
        name@ == battery_name_text(battery),
{
    match battery {
        Some(given) => to_ascii_uppercase(given.as_str()),
        None => String::from_str(DEFAULT_BATTERY),
    }
}

/// The separator between the parts of a path.
pub const SEPARATOR: char = '/';

/// `base` with `part` joined on, as `Path::join` joins paths on Linux: a part
/// that begins at the root stands alone; any other part follows the base,
/// with a separator between the two unless the base is empty or ends in one.
pub open spec fn join_text(base: Seq<char>, part: Seq<char>) -> Seq<char> {
    if part.len() > 0 && part[0] == SEPARATOR {
        part
    } else if base.len() > 0 && base.last() != SEPARATOR {
        base + seq![SEPARATOR] + part
    } else {
        base + part
    }
}

/// Joins `part` onto `base`.
pub fn join(base: &str, part: &str) -> (path: String)
    ensures
        path@ == join_text(base@, part@),
{
    if !part.is_empty() && part.get_char(0) == SEPARATOR {
        return String::from_str(part);
    }
    let mut path = String::from_str(base);
    let len: usize = base.unicode_len();
    if len > 0 && base.get_char(len - 1) != SEPARATOR {
        proof {
            reveal_strlit("/");
            assert("/"@ =~= seq![SEPARATOR]);
        }
        path.append("/");
    }
    path.append(part);
    path
}

/// The file name of a node that is a file of the battery.
pub open spec fn file_name_text(node: Node) -> Option<Seq<char>> {
    match node {
        Node::StartThreshold => Some(THRESHOLD_START@),
        Node::StopThreshold => Some(THRESHOLD_STOP@),
        Node::LegacyStartThreshold => Some(LEGACY_THRESHOLD_START@),
        Node::LegacyStopThreshold => Some(LEGACY_THRESHOLD_STOP@),
        _ => None,
    }
}

/// The path of `node` for the battery that the kernel lists as `battery`:
/// the battery's name is joined onto the class directory, and the name of a
/// file of the battery onto that. A name that begins with a separator so
/// takes the place of the class directory.
pub open spec fn path_text(node: Node, battery: Seq<char>) -> Seq<char> {
    match node {
        Node::ClassRoot => CLASS_POWER_SUPPLY@,
        Node::Battery => join_text(CLASS_POWER_SUPPLY@, battery),
        Node::AcOnline => join_text(CLASS_POWER_SUPPLY@, AC_ONLINE@),
        _ => join_text(join_text(CLASS_POWER_SUPPLY@, battery), file_name_text(node)->0),
    }
}

/// Builds the path of `node` for the battery `battery`, a normalised name.
pub fn node_path(node: Node, battery: &str) -> (path: String)
    ensures
        path@ == path_text(node, battery@),
{
    match node {
        Node::ClassRoot => String::from_str(CLASS_POWER_SUPPLY),
        Node::Battery => join(CLASS_POWER_SUPPLY, battery),
        Node::AcOnline => join(CLASS_POWER_SUPPLY, AC_ONLINE),
        Node::StartThreshold => join(join(CLASS_POWER_SUPPLY, battery).as_str(), THRESHOLD_START),
        Node::StopThreshold => join(join(CLASS_POWER_SUPPLY, battery).as_str(), THRESHOLD_STOP),
        Node::LegacyStartThreshold => join(
            join(CLASS_POWER_SUPPLY, battery).as_str(),
            LEGACY_THRESHOLD_START,
        ),
        Node::LegacyStopThreshold => join(
            join(CLASS_POWER_SUPPLY, battery).as_str(),
            LEGACY_THRESHOLD_STOP,
        ),
    }
}

/// The directory that has to exist for the battery that the caller means.
pub fn get_battery_path(battery: Option<String>) -> (path: String)
    ensures
        path@ == path_text(Node::Battery, battery_name_text(battery)),
{
    let name = battery_name(battery);
    node_path(Node::Battery, name.as_str())
}

/// What the answer on the battery's directory comes to: the battery is there
/// exactly where its directory exists.
pub open spec fn battery_present(name: String, exists: bool) -> Result<(), ChargeError> {
    if exists {
        Ok(())
    } else {
        Err(ChargeError::BatteryNotFound(name))
    }
}

/// Takes the battery's name as the kernel lists it and the answer on its
/// directory, and tells whether the battery is there.
pub fn is_battery_present(name: &String, exists: bool) -> (res: Result<(), ChargeError>)
    ensures
        res == battery_present(*name, exists),
{
    if !exists {
        return Err(ChargeError::BatteryNotFound(name.clone()));
    }
    Ok(())
}

/// The platform is supported exactly where the class directory exists.
pub fn is_platform_supported(root_exists: bool) -> (res: Result<(), ChargeError>)
    ensures
        res == (if root_exists {
            Ok::<(), ChargeError>(())
        } else {
            Err::<(), ChargeError>(ChargeError::Unsupported)
        }),
{
    if !root_exists {
        return Err(ChargeError::Unsupported);
    }
    Ok(())
}

/// The bytes to store in a threshold file for `threshold`: its decimal
/// digits, nothing before and nothing after.
pub fn write_threshold(threshold: u8) -> (data: Vec<u8>)
    ensures
        data@ == crate::decimal::decimal(threshold as nat),
{
    encode(threshold)
}

/// What reading a file of percentages comes to: the host's failure, an error
/// for contents that hold no percentage, or the percentage.
pub open spec fn reading(read: Result<Seq<u8>, IoFailure>) -> Result<u8, ChargeError> {
    match read {
        Ok(bytes) => match parse_percentage(bytes) {
            Some(value) => Ok(value),
            None => Err(ChargeError::MalformedKernelValue),
        },
        Err(failure) => Err(ChargeError::Io(failure)),
    }
}

/// The bytes of a read, where it gave any.
pub open spec fn read_view(read: Result<Vec<u8>, IoFailure>) -> Result<Seq<u8>, IoFailure> {
    match read {
        Ok(bytes) => Ok(bytes@),
        Err(failure) => Err(failure),
    }
}

/// Takes the outcome of reading a threshold file and gives the threshold.
pub fn read_threshold(read: Result<Vec<u8>, IoFailure>) -> (res: Result<u8, ChargeError>)
    ensures
        res == reading(read_view(read)),
{
    match read {
        Ok(bytes) => match parse(bytes.as_slice()) {
            Some(value) => Ok(value),
            None => Err(ChargeError::MalformedKernelValue),
        },
        Err(failure) => Err(ChargeError::Io(failure)),
    }
}

/// What the adapter's online flag comes to: any error of the reading, an
/// error of its own for a flag of 0, success for any other flag.
pub open spec fn power_online(flag: Result<u8, ChargeError>) -> Result<(), ChargeError> {
    match flag {
        Ok(value) => if value == 0 {
            Err(ChargeError::AcOffline)
        } else {
            Ok(())
        },
        Err(error) => Err(error),
    }
}

/// Takes the outcome of reading the adapter's online flag and tells whether
/// mains power is connected.
pub fn is_ac_power_online(read: Result<Vec<u8>, IoFailure>) -> (res: Result<(), ChargeError>)
    ensures
        res == power_online(reading(read_view(read))),
{
    match read_threshold(read) {
        Ok(value) => {
            if value == 0 {
                return Err(ChargeError::AcOffline);
            }
            Ok(())
        },
        Err(error) => Err(error),
    }
}

/// In which order, and under which names, an operation stores a pair.
#[derive(Debug, Clone, Copy, PartialEq, Eq, Structural)]
pub enum WriteOrder {
    /// The threshold that the stored stop threshold lets through first.
    ByStoredStop,
    /// Start, then stop.
    StartFirst,
    /// Start under both of its names, then stop under both of its names.
    EveryName,
}

/// The writes that store `pair`, in the order in which they are made.
///
/// The kernel refuses a start threshold that is not below the stop threshold
/// it holds at that moment. So where the new start is not below the stored
/// stop, `ByStoredStop` raises the stop first.
pub open spec fn write_plan(order: WriteOrder, pair: ThresholdPair, stored_stop: u8) -> Seq<
    Request,
> {
    let start = Request::Write(Node::StartThreshold, pair.start);
    let stop = Request::Write(Node::StopThreshold, pair.stop);
    match order {
        WriteOrder::ByStoredStop => if pair.start >= stored_stop {
            seq![stop, start]
        } else {
            seq![start, stop]
        },
        WriteOrder::StartFirst => seq![start, stop],
        WriteOrder::EveryName => seq![
            Request::Write(Node::LegacyStartThreshold, pair.start),
            start,
            Request::Write(Node::LegacyStopThreshold, pair.stop),
            stop,
        ],
    }
}

/// The write at place `index` of the plan, if the plan is that long.
pub fn planned_write(
    order: WriteOrder,
    pair: ThresholdPair,
    stored_stop: u8,
    index: usize,
) -> (write: Option<Request>)
    ensures
        write == (if index < write_plan(order, pair, stored_stop).len() {
            Some(write_plan(order, pair, stored_stop)[index as int])
        } else {
            None
        }),
{
    let start = Request::Write(Node::StartThreshold, pair.start);
    let stop = Request::Write(Node::StopThreshold, pair.stop);
    match order {
        WriteOrder::ByStoredStop => {
            let stop_first = pair.start >= stored_stop;
            if index == 0 {
                Some(if stop_first { stop } else { start })
            } else if index == 1 {
                Some(if stop_first { start } else { stop })
            } else {
                None
            }
        },
        WriteOrder::StartFirst => {
            if index == 0 {
                Some(start)
            } else if index == 1 {
                Some(stop)
            } else {
                None
            }
        },
        WriteOrder::EveryName => {
            if index == 0 {
                Some(Request::Write(Node::LegacyStartThreshold, pair.start))
            } else if index == 1 {
                Some(start)
            } else if index == 2 {
                Some(Request::Write(Node::LegacyStopThreshold, pair.stop))
            } else if index == 3 {
                Some(stop)
            } else {
                None
            }
        },
    }
}

/// `error` in the words of the operation that writes in this order: the one
/// that writes start first calls a missing battery "not present"; the
/// others keep `error` as it is.
pub open spec fn reworded(order: WriteOrder, error: ChargeError) -> ChargeError {
    match (order, error) {
        (WriteOrder::StartFirst, ChargeError::BatteryNotFound(_)) => ChargeError::StartFirst(
            StartFirstError::BatteryNotPresent,
        ),
        _ => error,
    }
}

/// Puts `error` in the words of the operation that writes in this order.
pub fn reword(order: WriteOrder, error: ChargeError) -> (res: ChargeError)
    ensures
        res == reworded(order, error),
{
    match (order, error) {
        (WriteOrder::StartFirst, ChargeError::BatteryNotFound(_)) => ChargeError::StartFirst(
            StartFirstError::BatteryNotPresent,
        ),
        (_, error) => error,
    }
}

/// What a threshold file that cannot be opened comes to. By the stored stop:
/// the host's failure. Start first: a missing file means that the platform
/// has no thresholds, any other failure stays as it is. Under every name:
/// the file that could not be opened, whatever the reason.
pub open spec fn open_error(
    order: WriteOrder,
    node: Node,
    battery: String,
    failure: IoFailure,
) -> ChargeError {
    match order {
        WriteOrder::ByStoredStop => ChargeError::Io(failure),
        WriteOrder::StartFirst => match failure {
            IoFailure::NotFound => ChargeError::Unsupported,
            _ => ChargeError::Io(failure),
        },
        WriteOrder::EveryName => ChargeError::EveryName(EveryNameError::OpenFailed(node, battery)),
    }
}

/// Names the error for a threshold file that could not be opened.
pub fn open_failed(order: WriteOrder, node: Node, battery: &String, failure: IoFailure) -> (res:
    ChargeError)
    ensures
        res == open_error(order, node, *battery, failure),
{
    match order {
        WriteOrder::ByStoredStop => ChargeError::Io(failure),
        WriteOrder::StartFirst => match failure {
            IoFailure::NotFound => ChargeError::Unsupported,
            other => ChargeError::Io(other),
        },
        WriteOrder::EveryName => ChargeError::EveryName(
            EveryNameError::OpenFailed(node, battery.clone()),
        ),
    }
}

/// What a threshold file that was opened but not written comes to. By the
/// stored stop: the host's failure. The two other orders each have one error
/// for it, whatever the reason.
pub open spec fn unwritten_error(order: WriteOrder, failure: IoFailure) -> ChargeError {
    match order {
        WriteOrder::ByStoredStop => ChargeError::Io(failure),
        WriteOrder::StartFirst => ChargeError::StartFirst(StartFirstError::WriteFailed),
        WriteOrder::EveryName => ChargeError::EveryName(EveryNameError::WriteFailed),
    }
}

/// Names the error for a threshold file that was opened but not written.
pub fn write_failed(order: WriteOrder, failure: IoFailure) -> (res: ChargeError)
    ensures
        res == unwritten_error(order, failure),
{
    match order {
        WriteOrder::ByStoredStop => ChargeError::Io(failure),
        WriteOrder::StartFirst => ChargeError::StartFirst(StartFirstError::WriteFailed),
        WriteOrder::EveryName => ChargeError::EveryName(EveryNameError::WriteFailed),
    }
}

/// The node that a request concerns; the class directory for a request that
/// concerns no node.
pub open spec fn node_of(request: Option<Request>) -> Node {
    match request {
        Some(Request::Exists(node)) => node,
        Some(Request::Read(node)) => node,
        Some(Request::Write(node, _)) => node,
        _ => Node::ClassRoot,
    }
}

/// Picks the node that a request concerns.
pub fn request_node(request: Option<Request>) -> (node: Node)
    ensures
        node == node_of(request),
{
    match request {
        Some(Request::Exists(node)) => node,
        Some(Request::Read(node)) => node,
        Some(Request::Write(node, _)) => node,
        _ => Node::ClassRoot,
    }
}

/// How far an operation that stores a pair has come.
#[derive(Debug, PartialEq, Eq)]
pub enum SetPhase {
    /// Asking whether the class directory exists.
    Platform,
    /// Asking whether the battery's directory exists.
    Battery,
    /// Asking for the stop threshold that the kernel holds.
    Stored,
    /// Making the writes of the plan; `done` of them are made.
    Writing { stored_stop: u8, done: usize },
    /// Over, with this result.
    Finished(Result<(), ChargeError>),
}

/// The operation that stores a pair of thresholds for one battery.
///
/// It is made by `set_thresholds` (or by one of the two simpler forms,
/// `set_threshold` and `set`) and then driven by the host: while `request`
/// names something to do, the host does it and passes the outcome to `step`.
#[derive(Debug, PartialEq, Eq)]
pub struct SetThresholds {
    pub order: WriteOrder,
    pub thresholds: ThresholdPair,
    /// The battery's name as the kernel lists it.
    pub battery: String,
    pub phase: SetPhase,
}

impl Operation for SetThresholds {
    /// What the operation asks of the host next; nothing once it is over.
    open spec fn pending(self) -> Option<Request> {
        match self.phase {
            SetPhase::Platform => Some(Request::Exists(Node::ClassRoot)),
            SetPhase::Battery => Some(Request::Exists(Node::Battery)),
            SetPhase::Stored => Some(Request::Read(Node::StopThreshold)),
            SetPhase::Writing { stored_stop, done } => {
                let plan = write_plan(self.order, self.thresholds, stored_stop);
                if done < plan.len() {
                    Some(plan[done as int])
                } else {
                    None
                }
            },
            SetPhase::Finished(_) => None,
        }
    }

    /// The operation after the host's answer.
    ///
    /// A missing class directory, a missing battery, a stop threshold that
    /// cannot be read or holds no percentage, and a failed write each end the
    /// operation with their error, in the words of the operation's order
    /// (see `reworded`, `open_error`, `unwritten_error`). The last write of
    /// the plan ends it with success. An answer that does not fit the pending
    /// request changes nothing.
    open spec fn next(self, answer: Answer) -> SetThresholds {
        match (self.phase, answer) {
            (SetPhase::Platform, Answer::Exists(found)) => if found {
                self.at(SetPhase::Battery)
            } else {
                self.at(SetPhase::Finished(Err(ChargeError::Unsupported)))
            },
            (SetPhase::Battery, Answer::Exists(found)) => match battery_present(
                self.battery,
                found,
            ) {
                Err(error) => self.at(SetPhase::Finished(Err(reworded(self.order, error)))),
                Ok(()) => if self.order == WriteOrder::ByStoredStop {
                    self.at(SetPhase::Stored)
                } else {
                    self.at(SetPhase::Writing { stored_stop: 0, done: 0 })
                },
            },
            (SetPhase::Stored, Answer::Contents(bytes)) => match reading(Ok(bytes)) {
                Ok(stored_stop) => self.at(SetPhase::Writing { stored_stop, done: 0 }),
                Err(error) => self.at(SetPhase::Finished(Err(error))),
            },
            (SetPhase::Stored, Answer::Failed(failure)) => self.at(
                SetPhase::Finished(Err(ChargeError::Io(failure))),
            ),
            (SetPhase::Writing { stored_stop, done }, Answer::Written) => if done + 1 < write_plan(
                self.order,
                self.thresholds,
                stored_stop,
            ).len() {
                self.at(SetPhase::Writing { stored_stop, done: (done + 1) as usize })
            } else {
                self.at(SetPhase::Finished(Ok(())))
            },
            (SetPhase::Writing { .. }, Answer::Failed(failure)) => self.at(
                SetPhase::Finished(
                    Err(open_error(self.order, node_of(self.pending()), self.battery, failure)),
                ),
            ),
            (SetPhase::Writing { .. }, Answer::Unwritten(failure)) => self.at(
                SetPhase::Finished(Err(unwritten_error(self.order, failure))),
            ),
            _ => self,
        }
    }
}

impl SetThresholds {
    /// The pair keeps the rule, and a write is left while the operation is
    /// writing.
    pub open spec fn wf(self) -> bool {
        &&& self.thresholds.wf()
        &&& (self.phase matches SetPhase::Writing { stored_stop, done } ==> done < write_plan(
            self.order,
            self.thresholds,
            stored_stop,
        ).len())
    }

    /// The operation is as its maker left it: the pair keeps the rule, and
    /// nothing has been asked yet.
    pub open spec fn fresh(self) -> bool {
        &&& self.thresholds.wf()
        &&& self.phase == (if self.order == WriteOrder::EveryName {
            SetPhase::Writing { stored_stop: 0, done: 0 }
        } else {
            SetPhase::Platform
        })
    }

    /// The result, once the operation is over.
    pub open spec fn outcome(self) -> Option<Result<(), ChargeError>> {
        match self.phase {
            SetPhase::Finished(result) => Some(result),
            _ => None,
        }
    }

    /// The operation in the phase `phase`.
    pub open spec fn at(self, phase: SetPhase) -> SetThresholds {
        SetThresholds { phase, ..self }
    }

    /// What to do next, if anything is left to do.
    pub fn request(&self) -> (request: Option<Request>)
        ensures
            request == self.pending(),
    {
        match &self.phase {
            SetPhase::Platform => Some(Request::Exists(Node::ClassRoot)),
            SetPhase::Battery => Some(Request::Exists(Node::Battery)),
            SetPhase::Stored => Some(Request::Read(Node::StopThreshold)),
            SetPhase::Writing { stored_stop, done } => planned_write(
                self.order,
                self.thresholds,
                *stored_stop,
                *done,
            ),
            SetPhase::Finished(_) => None,
        }
    }

    /// Takes the host's reply to the pending request and moves on.
    pub fn step(self, reply: Reply) -> (next: SetThresholds)
        ensures
            next == self.next(reply@),
            self.wf() ==> next.wf(),
    {
        let writing = request_node(self.request());
        let SetThresholds { order, thresholds, battery, phase } = self;
        let phase = match (phase, reply) {
            (SetPhase::Platform, Reply::Exists(found)) => {
                match is_platform_supported(found) {
                    Ok(()) => SetPhase::Battery,
                    Err(error) => SetPhase::Finished(Err(error)),
                }
            },
            (SetPhase::Battery, Reply::Exists(found)) => {
                match is_battery_present(&battery, found) {
                    Err(error) => SetPhase::Finished(Err(reword(order, error))),
                    Ok(()) => {
                        if order == WriteOrder::ByStoredStop {
                            SetPhase::Stored
                        } else {
                            SetPhase::Writing { stored_stop: 0, done: 0 }
                        }
                    },
                }
            },
            (SetPhase::Stored, Reply::Contents(bytes)) => {
                match read_threshold(Ok(bytes)) {
                    Ok(stored_stop) => SetPhase::Writing { stored_stop, done: 0 },
                    Err(error) => SetPhase::Finished(Err(error)),
                }
            },
            (SetPhase::Stored, Reply::Failed(failure)) => SetPhase::Finished(
                Err(ChargeError::Io(failure)),
            ),
            (SetPhase::Writing { stored_stop, done }, Reply::Written) => {
                let more = done < usize::MAX && planned_write(
                    order,
                    thresholds,
                    stored_stop,
                    done + 1,
                ).is_some();
                if more {
                    SetPhase::Writing { stored_stop, done: done + 1 }
                } else {
                    SetPhase::Finished(Ok(()))
                }
            },
            (SetPhase::Writing { .. }, Reply::Failed(failure)) => SetPhase::Finished(
                Err(open_failed(order, writing, &battery, failure)),
            ),
            (SetPhase::Writing { .. }, Reply::Unwritten(failure)) => SetPhase::Finished(
                Err(write_failed(order, failure)),
            ),
            (phase, _) => phase,
        };
        SetThresholds { order, thresholds, battery, phase }
    }

    /// Tells whether the operation is over.
    pub fn is_finished(&self) -> (finished: bool)
        ensures
            finished == self.outcome().is_some(),
    {
        match &self.phase {
            SetPhase::Finished(_) => true,
            _ => false,
        }
    }

    /// The result of the operation; none while it is not over.
    pub fn into_result(self) -> (result: Option<Result<(), ChargeError>>)
        ensures
            result == self.outcome(),
    {
        match self.phase {
            SetPhase::Finished(result) => Some(result),
            _ => None,
        }
    }
}

/// A well-formed operation that stores a pair has nothing pending exactly
/// when it is over: a host that drives it until `request` gives nothing
/// finds a result.
pub proof fn theorem_set_over_when_nothing_pending(op: SetThresholds)
    requires
        op.wf(),
    ensures
        op.pending() is None <==> op.outcome() is Some,
{
}

/// Begins to store `start` and `stop` for the battery that the caller means.
///
/// A pair that breaks the rule is refused here, before the host is asked for
/// anything. Otherwise the operation checks that the platform and the battery
/// exist, reads the stored stop threshold, and makes the two writes in the
/// order of `write_plan`: on whatever host it is driven, it comes to
/// `set_result`.
pub fn set_thresholds(start: u8, stop: u8, battery: Option<String>) -> (res: Result<
    SetThresholds,
    ChargeError,
>)
    ensures
        match res {
            Ok(op) => {
                &&& valid_thresholds(start, stop)
                &&& op.order == WriteOrder::ByStoredStop
                &&& op.thresholds == ThresholdPair { start, stop }
                &&& op.battery@ == battery_name_text(battery)
                &&& op.phase == SetPhase::Platform
                &&& op.wf()
                &&& op.fresh()
                &&& comes_to_set_result(op)
            },
            Err(error) => !valid_thresholds(start, stop) && error == ChargeError::InvalidThreshold,
        },
{
    match ThresholdPair::new(start, stop) {
        Ok(thresholds) => {
            let op = SetThresholds {
                order: WriteOrder::ByStoredStop,
                thresholds,
                battery: battery_name(battery),
                phase: SetPhase::Platform,
            };
            proof {
                theorem_comes_to_set_result(op);
            }
            Ok(op)
        },
        Err(error) => Err(error),
    }
}

/// Begins to store the pair that lets the battery charge until it is full,
/// given the outcome of reading the adapter's online flag.
///
/// Charging to the full needs mains power: whatever stands in the way of
/// knowing it connected is the result, and then the host is asked for
/// nothing. Otherwise the operation is that of `set_thresholds` for
/// `FULL_CHARGE_START` and `FULL_CHARGE_STOP`.
pub fn full_charge(power: Result<Vec<u8>, IoFailure>, battery: Option<String>) -> (res: Result<
    SetThresholds,
    ChargeError,
>)
    ensures
        match power_online(reading(read_view(power))) {
            Ok(()) => {
                &&& res matches Ok(op)
                &&& op.order == WriteOrder::ByStoredStop
                &&& op.thresholds == ThresholdPair {
                    start: FULL_CHARGE_START,
                    stop: FULL_CHARGE_STOP,
                }
                &&& op.battery@ == battery_name_text(battery)
                &&& op.fresh()
                &&& comes_to_set_result(op)
            },
            Err(error) => res == Err::<SetThresholds, ChargeError>(error),
        },
{
    match is_ac_power_online(power) {
        Ok(()) => set_thresholds(FULL_CHARGE_START, FULL_CHARGE_STOP, battery),
        Err(error) => Err(error),
    }
}

/// How far an operation that reads the stored pair has come.
#[derive(Debug, PartialEq, Eq)]
pub enum GetPhase {
    /// Asking whether the class directory exists.
    Platform,
    /// Asking whether the battery's directory exists.
    Battery,
    /// Asking for the stored start threshold.
    Start,
    /// Asking for the stored stop threshold; the start threshold is known.
    Stop(u8),
    /// Over, with this result.
    Finished(Result<(u8, u8), ChargeError>),
}

/// The operation that reads the pair of thresholds stored for one battery.
///
/// It is made by `get_thresholds` and driven by the host like
/// `SetThresholds`.
#[derive(Debug, PartialEq, Eq)]
pub struct GetThresholds {
    /// The battery's name as the kernel lists it.
    pub battery: String,
    pub phase: GetPhase,
}

impl Operation for GetThresholds {
    /// What the operation asks of the host next; nothing once it is over.
    open spec fn pending(self) -> Option<Request> {
        match self.phase {
            GetPhase::Platform => Some(Request::Exists(Node::ClassRoot)),
            GetPhase::Battery => Some(Request::Exists(Node::Battery)),
            GetPhase::Start => Some(Request::Read(Node::StartThreshold)),
            GetPhase::Stop(_) => Some(Request::Read(Node::StopThreshold)),
            GetPhase::Finished(_) => None,
        }
    }

    /// The operation after the host's answer.
    ///
    /// A missing class directory, a missing battery, and a threshold that
    /// cannot be read or holds no percentage each end the operation with
    /// their error. The pair is returned as the kernel holds it: the rule for
    /// a requested pair is not applied to it. An answer that does not fit the
    /// pending request changes nothing.
    open spec fn next(self, answer: Answer) -> GetThresholds {
        match (self.phase, answer) {
            (GetPhase::Platform, Answer::Exists(found)) => if found {
                self.at(GetPhase::Battery)
            } else {
                self.at(GetPhase::Finished(Err(ChargeError::Unsupported)))
            },
            (GetPhase::Battery, Answer::Exists(found)) => match battery_present(
                self.battery,
                found,
            ) {
                Ok(()) => self.at(GetPhase::Start),
                Err(error) => self.at(GetPhase::Finished(Err(error))),
            },
            (GetPhase::Start, Answer::Contents(bytes)) => match reading(Ok(bytes)) {
                Ok(start) => self.at(GetPhase::Stop(start)),
                Err(error) => self.at(GetPhase::Finished(Err(error))),
            },
            (GetPhase::Start, Answer::Failed(failure)) => self.at(
                GetPhase::Finished(Err(ChargeError::Io(failure))),
            ),
            (GetPhase::Stop(start), Answer::Contents(bytes)) => match reading(Ok(bytes)) {
                Ok(stop) => self.at(GetPhase::Finished(Ok((start, stop)))),
                Err(error) => self.at(GetPhase::Finished(Err(error))),
            },
            (GetPhase::Stop(_), Answer::Failed(failure)) => self.at(
                GetPhase::Finished(Err(ChargeError::Io(failure))),
            ),
            _ => self,
        }
    }
}

impl GetThresholds {
    /// The result, once the operation is over: start, then stop.
    pub open spec fn outcome(self) -> Option<Result<(u8, u8), ChargeError>> {
        match self.phase {
            GetPhase::Finished(result) => Some(result),
            _ => None,
        }
    }

    /// The operation in the phase `phase`.
    pub open spec fn at(self, phase: GetPhase) -> GetThresholds {
        GetThresholds { phase, ..self }
    }

    /// What to do next, if anything is left to do.
    pub fn request(&self) -> (request: Option<Request>)
        ensures
            request == self.pending(),
    {
        match &self.phase {
            GetPhase::Platform => Some(Request::Exists(Node::ClassRoot)),
            GetPhase::Battery => Some(Request::Exists(Node::Battery)),
            GetPhase::Start => Some(Request::Read(Node::StartThreshold)),
            GetPhase::Stop(_) => Some(Request::Read(Node::StopThreshold)),
            GetPhase::Finished(_) => None,
        }
    }

    /// Takes the host's reply to the pending request and moves on.
    pub fn step(self, reply: Reply) -> (next: GetThresholds)
        ensures
            next == self.next(reply@),
    {
        let GetThresholds { battery, phase } = self;
        let phase = match (phase, reply) {
            (GetPhase::Platform, Reply::Exists(found)) => {
                match is_platform_supported(found) {
                    Ok(()) => GetPhase::Battery,
                    Err(error) => GetPhase::Finished(Err(error)),
                }
            },
            (GetPhase::Battery, Reply::Exists(found)) => {
                match is_battery_present(&battery, found) {
                    Ok(()) => GetPhase::Start,
                    Err(error) => GetPhase::Finished(Err(error)),
                }
            },
            (GetPhase::Start, Reply::Contents(bytes)) => {
                match read_threshold(Ok(bytes)) {
                    Ok(start) => GetPhase::Stop(start),
                    Err(error) => GetPhase::Finished(Err(error)),
                }
            },
            (GetPhase::Start, Reply::Failed(failure)) => GetPhase::Finished(
                Err(ChargeError::Io(failure)),
            ),
            (GetPhase::Stop(start), Reply::Contents(bytes)) => {
                match read_threshold(Ok(bytes)) {
                    Ok(stop) => GetPhase::Finished(Ok((start, stop))),
                    Err(error) => GetPhase::Finished(Err(error)),
                }
            },
            (GetPhase::Stop(_), Reply::Failed(failure)) => GetPhase::Finished(
                Err(ChargeError::Io(failure)),
            ),
            (phase, _) => phase,
        };
        GetThresholds { battery, phase }
    }

    /// Tells whether the operation is over.
    pub fn is_finished(&self) -> (finished: bool)
        ensures
            finished == self.outcome().is_some(),
    {
        match &self.phase {
            GetPhase::Finished(_) => true,
            _ => false,
        }
    }

    /// The result of the operation; none while it is not over.
    pub fn into_result(self) -> (result: Option<Result<(u8, u8), ChargeError>>)
        ensures
            result == self.outcome(),
    {
        match self.phase {
            GetPhase::Finished(result) => Some(result),
            _ => None,
        }
    }
}

/// An operation that reads the stored pair has nothing pending exactly when
/// it is over.
pub proof fn theorem_get_over_when_nothing_pending(op: GetThresholds)
    ensures
        op.pending() is None <==> op.outcome() is Some,
{
}

/// Begins to read the thresholds of the battery that the caller means: the
/// operation checks that the platform and the battery exist, then reads the
/// start threshold and the stop threshold. On whatever host it is driven, it
/// comes to `get_result`.
pub fn get_thresholds(battery: Option<String>) -> (op: GetThresholds)
    ensures
        op.battery@ == battery_name_text(battery),
        op.phase == GetPhase::Platform,
        comes_to_get_result(op),
{
    let op = GetThresholds { battery: battery_name(battery), phase: GetPhase::Platform };
    proof {
        theorem_comes_to_get_result(op);
    }
    op
}

} // verus!
