use vstd::prelude::*;

use crate::json::Json;

verus! {

/// Arguments of `robot_vacuum_control`.
pub struct RobotVacuumInput {
    pub device_id: String,
    pub action: String,
    pub cleaning_mode: Option<String>,
    pub turbo: Option<String>,
}

/// Arguments of `door_lock_control`.
pub struct DoorLockInput {
    pub device_id: String,
    pub action: String,
}

/// Arguments of `washer_control`.
pub struct WasherInput {
    pub device_id: String,
    pub action: String,
    pub mode: Option<String>,
}

/// Arguments of `dryer_control`.
pub struct DryerInput {
    pub device_id: String,
    pub action: String,
    pub mode: Option<String>,
}

/// Arguments of `dishwasher_control`.
pub struct DishwasherInput {
    pub device_id: String,
    pub action: String,
    pub mode: Option<String>,
}

/// Arguments of `refrigerator_control`.
pub struct RefrigeratorInput {
    pub device_id: String,
    pub feature: String,
    pub state: String,
}

/// Arguments of `thermostat_control`. The set points are held as the JSON numbers they are
/// sent as.
pub struct ThermostatInput {
    pub device_id: String,
    pub mode: Option<String>,
    pub heating_setpoint: Option<Json>,
    pub cooling_setpoint: Option<Json>,
    pub fan_mode: Option<String>,
}

/// Arguments of `alarm_control`.
pub struct AlarmInput {
    pub device_id: String,
    pub action: String,
}

/// Arguments of `security_system_control`.
pub struct SecuritySystemInput {
    pub device_id: String,
    pub action: String,
}

/// Arguments of `garage_door_control`.
pub struct GarageDoorInput {
    pub device_id: String,
    pub action: String,
}

/// Arguments of `valve_control`.
pub struct ValveInput {
    pub device_id: String,
    pub action: String,
}

/// Arguments of `smoke_detector_status`, `co_detector_status` and `water_leak_status`.
pub struct SafetySensorInput {
    pub device_id: String,
}

} // verus!
