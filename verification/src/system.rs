//! Storing a pair without asking what is stored: for drivers that take the
//! two thresholds in any order.

use crate::error::{ChargeError, StartFirstError};
use crate::model::{comes_to_set_result, theorem_comes_to_set_result};
use crate::sysfs::{
    valid_thresholds, SetPhase, SetThresholds, ThresholdPair, WriteOrder, DEFAULT_BATTERY,
    THRESHOLD_MAX,
};
use vstd::prelude::*;
use vstd::string::*;

verus! {

/// The name of the battery that the caller means, taken as it is given; the
/// default battery where none is given.
pub open spec fn given_name_text(battery: Option<String>) -> Seq<char> {
    match battery {
        Some(name) => name@,
        None => DEFAULT_BATTERY@,
    }
}

/// What `set_threshold` says of a pair that breaks the rule: that a threshold
/// is out of range if one is above 100, and otherwise that start is not lower
/// than stop.
pub open spec fn refusal(start: u8, stop: u8) -> ChargeError {
    if start > THRESHOLD_MAX || stop > THRESHOLD_MAX {
        ChargeError::StartFirst(StartFirstError::OutOfRange)
    } else {
        ChargeError::StartFirst(StartFirstError::StartNotLower)
    }
}

/// Begins to store `start`, then `stop`, for the battery of exactly the
/// given name.
///
/// A pair that breaks the rule is refused here, before the host is asked for
/// anything: the range is tested first, then the order, and each has its own
/// error. Otherwise the operation checks that the platform and the battery
/// exist and makes the two writes, start first: on whatever host it is
/// driven, it comes to `set_result`.
pub fn set_threshold(start: u8, stop: u8, battery: Option<String>) -> (res: Result<
    SetThresholds,
    ChargeError,
>)
    ensures
        match res {
            Ok(op) => {
                &&& valid_thresholds(start, stop)
                &&& op.order == WriteOrder::StartFirst
                &&& op.thresholds == ThresholdPair { start, stop }
                &&& op.battery@ == given_name_text(battery)
                &&& op.phase == SetPhase::Platform
                &&& op.wf()
                &&& op.fresh()
                &&& comes_to_set_result(op)
            },
            Err(error) => !valid_thresholds(start, stop) && error == refusal(start, stop),
        },
{
    if start > THRESHOLD_MAX || stop > THRESHOLD_MAX {
        return Err(ChargeError::StartFirst(StartFirstError::OutOfRange));
    }
    if start >= stop {
        return Err(ChargeError::StartFirst(StartFirstError::StartNotLower));
    }
    let battery = match battery {
        Some(name) => name,
        None => String::from_str(DEFAULT_BATTERY),
    };
    let op = SetThresholds {
        order: WriteOrder::StartFirst,
        thresholds: ThresholdPair { start, stop },
        battery,
        phase: SetPhase::Platform,
    };
    proof {
        theorem_comes_to_set_result(op);
    }
    Ok(op)
}

/// Begins to store the widest pair, 0 and 100, start first, for the battery
/// of exactly the given name: the battery then charges at once and until it
/// is full.
pub fn full_charge(battery: Option<String>) -> (op: SetThresholds)
    ensures
        op.order == WriteOrder::StartFirst,
        op.thresholds == (ThresholdPair { start: 0, stop: 100 }),
        op.battery@ == given_name_text(battery),
        op.fresh(),
        comes_to_set_result(op),
{
    let battery = match battery {
        Some(name) => name,
        None => String::from_str(DEFAULT_BATTERY),
    };
    let op = SetThresholds {
        order: WriteOrder::StartFirst,
        thresholds: ThresholdPair { start: 0, stop: 100 },
        battery,
        phase: SetPhase::Platform,
    };
    proof {
        theorem_comes_to_set_result(op);
    }
    op
}

} // verus!
