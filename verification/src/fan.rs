//! The rule that switches the cooling fan.

use vstd::prelude::*;

verus! {

/// What to do with the fan.
#[derive(Clone, Copy, Debug, PartialEq, Eq, Structural)]
pub enum FanAction {
    TurnOn,
    TurnOff,
    Keep,
}

/// The rule of the fan. A running fan is turned off once the temperature
/// is at or below the lower threshold; a fan at rest is turned on once the
/// temperature is at or above the upper threshold. Between the two
/// thresholds the fan is left as it is.
pub open spec fn fan_rule(is_running: bool, at_or_below_off: bool, at_or_above_on: bool) -> FanAction {
    if is_running {
        if at_or_below_off {
            FanAction::TurnOff
        } else {
            FanAction::Keep
        }
    } else if at_or_above_on {
        FanAction::TurnOn
    } else {
        FanAction::Keep
    }
}

/// What to do with the fan, from whether it runs and how the temperature
/// compares with the two thresholds: see [`fan_rule`].
pub fn fan_action(is_running: bool, at_or_below_off: bool, at_or_above_on: bool) -> (action: FanAction)
    ensures
        action == fan_rule(is_running, at_or_below_off, at_or_above_on),
{
    if is_running {
        if at_or_below_off {
            FanAction::TurnOff
        } else {
            FanAction::Keep
        }
    } else if at_or_above_on {
        FanAction::TurnOn
    } else {
        FanAction::Keep
    }
}

} // verus!
