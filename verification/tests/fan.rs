use rustberry_poe_monitor::fan::{fan_action, FanAction};

#[test]
fn a_running_fan_stops_when_cool() {
    assert_eq!(fan_action(true, true, false), FanAction::TurnOff);
    assert_eq!(fan_action(true, true, true), FanAction::TurnOff);
}

#[test]
fn a_running_fan_keeps_running_until_cool() {
    assert_eq!(fan_action(true, false, false), FanAction::Keep);
    assert_eq!(fan_action(true, false, true), FanAction::Keep);
}

#[test]
fn a_resting_fan_starts_when_hot() {
    assert_eq!(fan_action(false, false, true), FanAction::TurnOn);
    assert_eq!(fan_action(false, true, true), FanAction::TurnOn);
}

#[test]
fn a_resting_fan_rests_until_hot() {
    assert_eq!(fan_action(false, false, false), FanAction::Keep);
    assert_eq!(fan_action(false, true, false), FanAction::Keep);
}
