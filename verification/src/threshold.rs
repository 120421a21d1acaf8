//! Storing a pair for the default battery under every name that drivers have
//! given to the two threshold files.

use crate::error::{ChargeError, EveryNameError};
use crate::model::{comes_to_set_result, theorem_comes_to_set_result};
use crate::sysfs::{
    valid_thresholds, SetPhase, SetThresholds, ThresholdPair, WriteOrder, DEFAULT_BATTERY,
    THRESHOLD_MAX,
};
use vstd::prelude::*;
use vstd::string::*;

verus! {

/// What `set` says of a pair that breaks the rule: that the thresholds are
/// invalid if one is above 100, and otherwise that start is not less than
/// stop.
pub open spec fn refusal(start: u8, stop: u8) -> ChargeError {
    if start > THRESHOLD_MAX || stop > THRESHOLD_MAX {
        ChargeError::InvalidThreshold
    } else {
        ChargeError::EveryName(EveryNameError::StartNotLess)
    }
}

/// Begins to store `start` and `stop` for the default battery: start under
/// its older and its current name, then stop under its older and its current
/// name.
///
/// A pair that breaks the rule is refused here, before the host is asked for
/// anything: the range is tested first, then the order. Otherwise the
/// operation goes straight to its four writes, and the first that fails ends
/// it, with the path of the file if it could not be opened: on whatever host
/// it is driven, it comes to `set_result`.
pub fn set(start: u8, stop: u8) -> (res: Result<SetThresholds, ChargeError>)
    ensures
        match res {
            Ok(op) => {
                &&& valid_thresholds(start, stop)
                &&& op.order == WriteOrder::EveryName
                &&& op.thresholds == ThresholdPair { start, stop }
                &&& op.battery@ == DEFAULT_BATTERY@
                &&& op.phase == SetPhase::Writing { stored_stop: 0, done: 0 }
                &&& op.wf()
                &&& op.fresh()
                &&& comes_to_set_result(op)
            },
            Err(error) => !valid_thresholds(start, stop) && error == refusal(start, stop),
        },
{
    if start > THRESHOLD_MAX || stop > THRESHOLD_MAX {
        return Err(ChargeError::InvalidThreshold);
    }
    if start >= stop {
        return Err(ChargeError::EveryName(EveryNameError::StartNotLess));
    }
    let op = SetThresholds {
        order: WriteOrder::EveryName,
        thresholds: ThresholdPair { start, stop },
        battery: String::from_str(DEFAULT_BATTERY),
        phase: SetPhase::Writing { stored_stop: 0, done: 0 },
    };
    proof {
        theorem_comes_to_set_result(op);
    }
    Ok(op)
}

} // verus!
