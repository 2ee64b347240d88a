use vstd::prelude::*;

use crate::json::Json;
use crate::text::owned;

verus! {

/// Arguments of `list_devices`.
pub struct ListDevicesInput {
    pub location_id: Option<String>,
    pub capability: Option<String>,
}

/// Arguments of `get_device_status`.
pub struct GetDeviceStatusInput {
    pub device_id: String,
}

/// Arguments of `send_command`; `component` is `main` where the caller gives none.
pub struct SendCommandInput {
    pub device_id: String,
    pub capability: String,
    pub command: String,
    pub arguments: Vec<Json>,
    pub component: String,
}

/// The component that a command goes to where none is named.
pub fn default_component() -> (r: String)
    ensures
        r@ == "main"@,
{
    owned("main")
}

/// Arguments of `execute_scene`.
pub struct ExecuteSceneInput {
    pub scene_id: String,
}

/// Arguments of `get_weather`.
pub struct GetWeatherInput {
    pub location_id: String,
}

} // verus!
