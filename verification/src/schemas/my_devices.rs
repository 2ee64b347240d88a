use vstd::prelude::*;

use crate::json::Json;

verus! {

/// Arguments of `switch_power`.
pub struct SwitchPowerInput {
    pub device_id: String,
    pub state: String,
}

/// Arguments of `set_brightness`.
pub struct SetBrightnessInput {
    pub device_id: String,
    pub level: i32,
}

/// Arguments of `set_color`.
pub struct SetColorInput {
    pub device_id: String,
    pub hue: i32,
    pub saturation: i32,
}

/// Arguments of `set_color_temperature`.
pub struct SetColorTemperatureInput {
    pub device_id: String,
    pub temperature: i32,
}

/// Arguments of `control_curtain`.
pub struct ControlCurtainInput {
    pub device_id: String,
    pub action: Option<String>,
    pub level: Option<i32>,
}

/// Arguments of `tv_power`.
pub struct TvPowerInput {
    pub device_id: String,
    pub state: String,
}

/// Arguments of `tv_volume`.
pub struct TvVolumeInput {
    pub device_id: String,
    pub action: String,
    pub volume: Option<i32>,
}

/// Arguments of `tv_mute`.
pub struct TvMuteInput {
    pub device_id: String,
    pub state: String,
}

/// Arguments of `tv_channel`.
pub struct TvChannelInput {
    pub device_id: String,
    pub action: String,
    pub channel: Option<String>,
}

/// Arguments of `tv_input`.
pub struct TvInputInput {
    pub device_id: String,
    pub source: String,
}

/// Arguments of `media_playback`.
pub struct MediaPlaybackInput {
    pub device_id: String,
    pub action: String,
}

/// Arguments of `media_volume`.
pub struct MediaVolumeInput {
    pub device_id: String,
    pub action: String,
    pub volume: Option<i32>,
}

/// Arguments of `ac_control`. The temperature is held as the JSON number it is sent as.
pub struct AcControlInput {
    pub device_id: String,
    pub power: Option<String>,
    pub mode: Option<String>,
    pub temperature: Option<Json>,
    pub wind_level: Option<i32>,
}

/// Arguments of `air_purifier_control`.
pub struct AirPurifierInput {
    pub device_id: String,
    pub power: Option<String>,
    pub mode: Option<String>,
}

/// Arguments of `dehumidifier_control`.
pub struct DehumidifierInput {
    pub device_id: String,
    pub power: Option<String>,
    pub mode: Option<String>,
    pub target_humidity: Option<i32>,
}

/// Arguments of `get_sensor_data`.
pub struct GetSensorDataInput {
    pub device_id: String,
}

/// Arguments of `get_energy_data`.
pub struct GetEnergyDataInput {
    pub device_id: String,
}

/// Arguments of `get_battery_status`.
pub struct GetBatteryInput {
    pub device_id: String,
}

/// Arguments of `oven_status`.
pub struct OvenStatusInput {
    pub device_id: String,
}

} // verus!
