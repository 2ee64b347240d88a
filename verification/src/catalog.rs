//! The catalogue of tools: their names and descriptions, the arguments each takes, and
//! the dispatch from arguments to the tool's plan and result.
use vstd::prelude::*;

use crate::client::{ApiRequest, ApiRequestV, Response, ResponseV, SmartThingsClient, responses_view};
use crate::common_tools::{ExecuteSceneTool, GetDeviceStatusTool, GetWeatherTool, ListDevicesTool, SendCommandTool};
use crate::extended_devices::dishwasher::DishwasherTool;
use crate::extended_devices::door_valve::{GarageDoorTool, ValveTool};
use crate::extended_devices::laundry::{DryerTool, WasherTool};
use crate::extended_devices::lock::DoorLockTool;
use crate::extended_devices::refrigerator::RefrigeratorTool;
use crate::extended_devices::safety_sensor::{CoDetectorTool, SmokeDetectorTool, WaterLeakTool};
use crate::extended_devices::security::{AlarmTool, SecuritySystemTool};
use crate::extended_devices::thermostat::ThermostatTool;
use crate::extended_devices::vacuum::RobotVacuumTool;
use crate::my_devices::air_quality::{AirPurifierTool, DehumidifierTool};
use crate::my_devices::climate::AcControlTool;
use crate::my_devices::curtain::ControlCurtainTool;
use crate::my_devices::energy::{GetBatteryStatusTool, GetEnergyDataTool};
use crate::my_devices::light::{SetBrightnessTool, SetColorTemperatureTool, SetColorTool};
use crate::my_devices::media::{MediaPlaybackTool, MediaVolumeTool};
use crate::my_devices::oven::OvenStatusTool;
use crate::my_devices::sensor::GetSensorDataTool;
use crate::my_devices::switch::SwitchPowerTool;
use crate::my_devices::tv::{TvChannelTool, TvInputTool, TvMuteTool, TvPowerTool, TvVolumeTool};
use crate::plan::{plan_len, plan_view};
use crate::schemas::common::{ExecuteSceneInput, GetDeviceStatusInput, GetWeatherInput, ListDevicesInput, SendCommandInput};
use crate::schemas::extended_devices::{AlarmInput, DishwasherInput, DoorLockInput, DryerInput, GarageDoorInput, RefrigeratorInput, RobotVacuumInput, SafetySensorInput, SecuritySystemInput, ThermostatInput, ValveInput, WasherInput};
use crate::schemas::my_devices::{AcControlInput, AirPurifierInput, ControlCurtainInput, DehumidifierInput, GetBatteryInput, GetEnergyDataInput, GetSensorDataInput, MediaPlaybackInput, MediaVolumeInput, OvenStatusInput, SetBrightnessInput, SetColorInput, SetColorTemperatureInput, SwitchPowerInput, TvChannelInput, TvInputInput, TvMuteInput, TvPowerInput, TvVolumeInput};
use crate::tool::{ToolResult, ToolResultV};

verus! {

/// A tool that a language model can call.
#[derive(Clone, Copy, PartialEq, Eq, Structural)]
pub enum Tool {
    ListDevices,
    GetDeviceStatus,
    SendCommand,
    ExecuteScene,
    GetWeather,
    SwitchPower,
    SetBrightness,
    SetColor,
    SetColorTemperature,
    ControlCurtain,
    TvPower,
    TvVolume,
    TvMute,
    TvChannel,
    TvInput,
    MediaPlayback,
    MediaVolume,
    AcControl,
    AirPurifier,
    Dehumidifier,
    OvenStatus,
    GetSensorData,
    GetEnergyData,
    GetBatteryStatus,
    RobotVacuum,
    DoorLock,
    Washer,
    Dryer,
    Dishwasher,
    Refrigerator,
    Thermostat,
    Alarm,
    SecuritySystem,
    GarageDoor,
    Valve,
    SmokeDetector,
    CoDetector,
    WaterLeak,
}

impl Tool {
    /// The name under which the tool is called.
    pub open spec fn name_v(self) -> Seq<char> {
        match self {
            Tool::ListDevices => "list_devices"@,
            Tool::GetDeviceStatus => "get_device_status"@,
            Tool::SendCommand => "send_command"@,
            Tool::ExecuteScene => "execute_scene"@,
            Tool::GetWeather => "get_weather"@,
            Tool::SwitchPower => "switch_power"@,
            Tool::SetBrightness => "set_brightness"@,
            Tool::SetColor => "set_color"@,
            Tool::SetColorTemperature => "set_color_temperature"@,
            Tool::ControlCurtain => "control_curtain"@,
            Tool::TvPower => "tv_power"@,
            Tool::TvVolume => "tv_volume"@,
            Tool::TvMute => "tv_mute"@,
            Tool::TvChannel => "tv_channel"@,
            Tool::TvInput => "tv_input"@,
            Tool::MediaPlayback => "media_playback"@,
            Tool::MediaVolume => "media_volume"@,
            Tool::AcControl => "ac_control"@,
            Tool::AirPurifier => "air_purifier_control"@,
            Tool::Dehumidifier => "dehumidifier_control"@,
            Tool::OvenStatus => "oven_status"@,
            Tool::GetSensorData => "get_sensor_data"@,
            Tool::GetEnergyData => "get_energy_data"@,
            Tool::GetBatteryStatus => "get_battery_status"@,
            Tool::RobotVacuum => "robot_vacuum_control"@,
            Tool::DoorLock => "door_lock_control"@,
            Tool::Washer => "washer_control"@,
            Tool::Dryer => "dryer_control"@,
            Tool::Dishwasher => "dishwasher_control"@,
            Tool::Refrigerator => "refrigerator_control"@,
            Tool::Thermostat => "thermostat_control"@,
            Tool::Alarm => "alarm_control"@,
            Tool::SecuritySystem => "security_system_control"@,
            Tool::GarageDoor => "garage_door_control"@,
            Tool::Valve => "valve_control"@,
            Tool::SmokeDetector => "smoke_detector_status"@,
            Tool::CoDetector => "co_detector_status"@,
            Tool::WaterLeak => "water_leak_status"@,
        }
    }

    /// The description that a language model reads.
    pub open spec fn description_v(self) -> Seq<char> {
        match self {
            Tool::ListDevices => "등록된 모든 SmartThings 디바이스 목록을 조회합니다. 각 디바이스의 ID, 이름, 방, 지원 capability를 반환합니다."@,
            Tool::GetDeviceStatus => "특정 디바이스의 현재 상태를 조회합니다. 전원, 온도, 밝기 등 모든 capability 상태를 반환합니다."@,
            Tool::SendCommand => "범용 디바이스 커맨드를 전송합니다. 다른 도구로 해결되지 않는 특수한 capability/command 조합에 사용합니다."@,
            Tool::ExecuteScene => "SmartThings에 등록된 씬을 실행합니다. 여러 디바이스를 한 번에 제어할 수 있습니다."@,
            Tool::GetWeather => "현재 위치의 날씨 정보(기온, 습도, 날씨 상태)를 조회합니다."@,
            Tool::SwitchPower => "디바이스 전원을 켜거나 끕니다. 조명, 스마트플러그, 공기청정기, 제습기, TV, 환풍기 등 switch capability가 있는 모든 디바이스에 사용합니다."@,
            Tool::SetBrightness => "조명 밝기를 0~100 사이 값으로 설정합니다. 라이트스트립, 디머 조명 등에 사용합니다."@,
            Tool::SetColor => "조명 색상을 변경합니다. hue(색조 0~100)와 saturation(채도 0~100)을 설정합니다."@,
            Tool::SetColorTemperature => "조명 색온도를 변경합니다. 2700K(따뜻한 노란색)~6500K(차가운 흰색) 범위를 지원합니다."@,
            Tool::ControlCurtain => "커튼/블라인드를 열거나 닫습니다. 특정 위치(0~100%)로 설정할 수도 있습니다."@,
            Tool::TvPower => "TV 전원을 켜거나 끕니다."@,
            Tool::TvVolume => "TV 볼륨을 조절합니다. 직접 설정, 올리기, 내리기를 지원합니다."@,
            Tool::TvMute => "TV 음소거를 설정하거나 해제합니다."@,
            Tool::TvChannel => "TV 채널을 변경합니다. 채널 번호 직접 입력, 다음/이전 채널 이동을 지원합니다."@,
            Tool::TvInput => "TV 입력 소스를 변경합니다 (HDMI1, HDMI2, USB, digitalTv 등)."@,
            Tool::MediaPlayback => "미디어 재생을 제어합니다. 재생, 일시정지, 정지, 빨리감기, 되감기를 지원합니다."@,
            Tool::MediaVolume => "미디어 디바이스(스피커 등)의 볼륨을 조절합니다."@,
            Tool::AcControl => "에어컨을 제어합니다. 전원, 모드, 온도, 풍량을 설정할 수 있습니다."@,
            Tool::AirPurifier => "공기청정기를 제어합니다. 전원과 운전 모드를 설정할 수 있습니다."@,
            Tool::Dehumidifier => "제습기를 제어합니다. 전원, 모드, 목표 습도를 설정할 수 있습니다."@,
            Tool::OvenStatus => "오븐/쿠커의 현재 상태를 조회합니다. 운전 모드, 동작 상태, 온도 등을 확인할 수 있습니다. (읽기 전용)"@,
            Tool::GetSensorData => "센서 디바이스의 현재 측정값을 조회합니다. 재실/모션 감지, 온도, 습도, 조도, 접촉, 소리 감지 등 모든 센서 데이터를 반환합니다."@,
            Tool::GetEnergyData => "스마트 플러그의 전력 사용량을 조회합니다. 현재 전력(W)과 누적 에너지(kWh)를 반환합니다."@,
            Tool::GetBatteryStatus => "배터리 구동 디바이스의 배터리 잔량을 확인합니다."@,
            Tool::RobotVacuum => "로봇청소기를 제어합니다. 청소 시작/일시정지/복귀, 청소 모드, 터보 모드를 설정할 수 있습니다."@,
            Tool::DoorLock => "스마트 도어록을 잠그거나 해제합니다."@,
            Tool::Washer => "세탁기를 제어합니다. 가동, 일시정지, 정지 및 세탁 모드를 설정할 수 있습니다."@,
            Tool::Dryer => "건조기를 제어합니다. 가동, 일시정지, 정지 및 건조 모드를 설정할 수 있습니다."@,
            Tool::Dishwasher => "식기세척기를 제어합니다. 가동, 일시정지, 정지 및 세척 모드를 설정할 수 있습니다."@,
            Tool::Refrigerator => "냉장고의 급속냉각, 급속냉동, 제상 기능을 제어합니다."@,
            Tool::Thermostat => "온도조절기/보일러를 제어합니다. 운전 모드, 난방 목표 온도, 냉방 목표 온도, 팬 모드를 설정할 수 있습니다."@,
            Tool::Alarm => "사이렌/경보 디바이스를 제어합니다. 사이렌, 스트로브, 동시작동, 끄기를 지원합니다."@,
            Tool::SecuritySystem => "보안 시스템의 경계 모드를 설정합니다. 외출 경계, 재실 경계, 해제를 지원합니다."@,
            Tool::GarageDoor => "차고문을 열거나 닫습니다."@,
            Tool::Valve => "스마트 밸브(수도 차단 밸브 등)를 열거나 닫습니다."@,
            Tool::SmokeDetector => "화재 감지기의 현재 상태를 조회합니다. (읽기 전용)"@,
            Tool::CoDetector => "일산화탄소 감지기의 현재 상태를 조회합니다. (읽기 전용)"@,
            Tool::WaterLeak => "누수 감지 센서의 현재 상태를 조회합니다. (읽기 전용)"@,
        }
    }

    /// Whether the tool reports a failed request with the service's reply as data.
    pub open spec fn reports_reply(self) -> bool {
        match self {
            Tool::ListDevices => true,
            Tool::GetDeviceStatus => true,
            Tool::SendCommand => true,
            Tool::ExecuteScene => true,
            Tool::GetWeather => true,
            _ => false,
        }
    }

    /// The name under which the tool is called.
    pub fn name(&self) -> (r: &'static str)
        ensures
            r@ == self.name_v(),
    {
        match self {
            Tool::ListDevices => "list_devices",
            Tool::GetDeviceStatus => "get_device_status",
            Tool::SendCommand => "send_command",
            Tool::ExecuteScene => "execute_scene",
            Tool::GetWeather => "get_weather",
            Tool::SwitchPower => "switch_power",
            Tool::SetBrightness => "set_brightness",
            Tool::SetColor => "set_color",
            Tool::SetColorTemperature => "set_color_temperature",
            Tool::ControlCurtain => "control_curtain",
            Tool::TvPower => "tv_power",
            Tool::TvVolume => "tv_volume",
            Tool::TvMute => "tv_mute",
            Tool::TvChannel => "tv_channel",
            Tool::TvInput => "tv_input",
            Tool::MediaPlayback => "media_playback",
            Tool::MediaVolume => "media_volume",
            Tool::AcControl => "ac_control",
            Tool::AirPurifier => "air_purifier_control",
            Tool::Dehumidifier => "dehumidifier_control",
            Tool::OvenStatus => "oven_status",
            Tool::GetSensorData => "get_sensor_data",
            Tool::GetEnergyData => "get_energy_data",
            Tool::GetBatteryStatus => "get_battery_status",
            Tool::RobotVacuum => "robot_vacuum_control",
            Tool::DoorLock => "door_lock_control",
            Tool::Washer => "washer_control",
            Tool::Dryer => "dryer_control",
            Tool::Dishwasher => "dishwasher_control",
            Tool::Refrigerator => "refrigerator_control",
            Tool::Thermostat => "thermostat_control",
            Tool::Alarm => "alarm_control",
            Tool::SecuritySystem => "security_system_control",
            Tool::GarageDoor => "garage_door_control",
            Tool::Valve => "valve_control",
            Tool::SmokeDetector => "smoke_detector_status",
            Tool::CoDetector => "co_detector_status",
            Tool::WaterLeak => "water_leak_status",
        }
    }

    /// The description that a language model reads.
    pub fn description(&self) -> (r: &'static str)
        ensures
            r@ == self.description_v(),
    {
        match self {
            Tool::ListDevices => "등록된 모든 SmartThings 디바이스 목록을 조회합니다. 각 디바이스의 ID, 이름, 방, 지원 capability를 반환합니다.",
            Tool::GetDeviceStatus => "특정 디바이스의 현재 상태를 조회합니다. 전원, 온도, 밝기 등 모든 capability 상태를 반환합니다.",
            Tool::SendCommand => "범용 디바이스 커맨드를 전송합니다. 다른 도구로 해결되지 않는 특수한 capability/command 조합에 사용합니다.",
            Tool::ExecuteScene => "SmartThings에 등록된 씬을 실행합니다. 여러 디바이스를 한 번에 제어할 수 있습니다.",
            Tool::GetWeather => "현재 위치의 날씨 정보(기온, 습도, 날씨 상태)를 조회합니다.",
            Tool::SwitchPower => "디바이스 전원을 켜거나 끕니다. 조명, 스마트플러그, 공기청정기, 제습기, TV, 환풍기 등 switch capability가 있는 모든 디바이스에 사용합니다.",
            Tool::SetBrightness => "조명 밝기를 0~100 사이 값으로 설정합니다. 라이트스트립, 디머 조명 등에 사용합니다.",
            Tool::SetColor => "조명 색상을 변경합니다. hue(색조 0~100)와 saturation(채도 0~100)을 설정합니다.",
            Tool::SetColorTemperature => "조명 색온도를 변경합니다. 2700K(따뜻한 노란색)~6500K(차가운 흰색) 범위를 지원합니다.",
            Tool::ControlCurtain => "커튼/블라인드를 열거나 닫습니다. 특정 위치(0~100%)로 설정할 수도 있습니다.",
            Tool::TvPower => "TV 전원을 켜거나 끕니다.",
            Tool::TvVolume => "TV 볼륨을 조절합니다. 직접 설정, 올리기, 내리기를 지원합니다.",
            Tool::TvMute => "TV 음소거를 설정하거나 해제합니다.",
            Tool::TvChannel => "TV 채널을 변경합니다. 채널 번호 직접 입력, 다음/이전 채널 이동을 지원합니다.",
            Tool::TvInput => "TV 입력 소스를 변경합니다 (HDMI1, HDMI2, USB, digitalTv 등).",
            Tool::MediaPlayback => "미디어 재생을 제어합니다. 재생, 일시정지, 정지, 빨리감기, 되감기를 지원합니다.",
            Tool::MediaVolume => "미디어 디바이스(스피커 등)의 볼륨을 조절합니다.",
            Tool::AcControl => "에어컨을 제어합니다. 전원, 모드, 온도, 풍량을 설정할 수 있습니다.",
            Tool::AirPurifier => "공기청정기를 제어합니다. 전원과 운전 모드를 설정할 수 있습니다.",
            Tool::Dehumidifier => "제습기를 제어합니다. 전원, 모드, 목표 습도를 설정할 수 있습니다.",
            Tool::OvenStatus => "오븐/쿠커의 현재 상태를 조회합니다. 운전 모드, 동작 상태, 온도 등을 확인할 수 있습니다. (읽기 전용)",
            Tool::GetSensorData => "센서 디바이스의 현재 측정값을 조회합니다. 재실/모션 감지, 온도, 습도, 조도, 접촉, 소리 감지 등 모든 센서 데이터를 반환합니다.",
            Tool::GetEnergyData => "스마트 플러그의 전력 사용량을 조회합니다. 현재 전력(W)과 누적 에너지(kWh)를 반환합니다.",
            Tool::GetBatteryStatus => "배터리 구동 디바이스의 배터리 잔량을 확인합니다.",
            Tool::RobotVacuum => "로봇청소기를 제어합니다. 청소 시작/일시정지/복귀, 청소 모드, 터보 모드를 설정할 수 있습니다.",
            Tool::DoorLock => "스마트 도어록을 잠그거나 해제합니다.",
            Tool::Washer => "세탁기를 제어합니다. 가동, 일시정지, 정지 및 세탁 모드를 설정할 수 있습니다.",
            Tool::Dryer => "건조기를 제어합니다. 가동, 일시정지, 정지 및 건조 모드를 설정할 수 있습니다.",
            Tool::Dishwasher => "식기세척기를 제어합니다. 가동, 일시정지, 정지 및 세척 모드를 설정할 수 있습니다.",
            Tool::Refrigerator => "냉장고의 급속냉각, 급속냉동, 제상 기능을 제어합니다.",
            Tool::Thermostat => "온도조절기/보일러를 제어합니다. 운전 모드, 난방 목표 온도, 냉방 목표 온도, 팬 모드를 설정할 수 있습니다.",
            Tool::Alarm => "사이렌/경보 디바이스를 제어합니다. 사이렌, 스트로브, 동시작동, 끄기를 지원합니다.",
            Tool::SecuritySystem => "보안 시스템의 경계 모드를 설정합니다. 외출 경계, 재실 경계, 해제를 지원합니다.",
            Tool::GarageDoor => "차고문을 열거나 닫습니다.",
            Tool::Valve => "스마트 밸브(수도 차단 밸브 등)를 열거나 닫습니다.",
            Tool::SmokeDetector => "화재 감지기의 현재 상태를 조회합니다. (읽기 전용)",
            Tool::CoDetector => "일산화탄소 감지기의 현재 상태를 조회합니다. (읽기 전용)",
            Tool::WaterLeak => "누수 감지 센서의 현재 상태를 조회합니다. (읽기 전용)",
        }
    }

    /// Whether the tool reports a failed request with the service's reply as data.
    pub fn reports_reply_exec(&self) -> (r: bool)
        ensures
            r == self.reports_reply(),
    {
        match self {
            Tool::ListDevices => true,
            Tool::GetDeviceStatus => true,
            Tool::SendCommand => true,
            Tool::ExecuteScene => true,
            Tool::GetWeather => true,
            _ => false,
        }
    }

}

/// The tools that work on any device, in the order in which they are offered.
pub open spec fn common_tools_v() -> Seq<Tool> {
    seq![Tool::ListDevices, Tool::GetDeviceStatus, Tool::SendCommand, Tool::ExecuteScene, Tool::GetWeather]
}

/// The tools for the devices of a typical home, in the order in which they are offered.
pub open spec fn my_device_tools_v() -> Seq<Tool> {
    seq![Tool::SwitchPower, Tool::SetBrightness, Tool::SetColor, Tool::SetColorTemperature, Tool::ControlCurtain, Tool::TvPower, Tool::TvVolume, Tool::TvMute, Tool::TvChannel, Tool::TvInput, Tool::MediaPlayback, Tool::MediaVolume, Tool::AcControl, Tool::AirPurifier, Tool::Dehumidifier, Tool::OvenStatus, Tool::GetSensorData, Tool::GetEnergyData, Tool::GetBatteryStatus]
}

/// The tools for less common devices, in the order in which they are offered.
pub open spec fn extended_device_tools_v() -> Seq<Tool> {
    seq![Tool::RobotVacuum, Tool::DoorLock, Tool::Washer, Tool::Dryer, Tool::Dishwasher, Tool::Refrigerator, Tool::Thermostat, Tool::Alarm, Tool::SecuritySystem, Tool::GarageDoor, Tool::Valve, Tool::SmokeDetector, Tool::CoDetector, Tool::WaterLeak]
}

/// The tools that work on any device.
pub fn common_tools() -> (r: Vec<Tool>)
    ensures
        r@ == common_tools_v(),
{
    let r = vec![Tool::ListDevices, Tool::GetDeviceStatus, Tool::SendCommand, Tool::ExecuteScene, Tool::GetWeather];
    assert(r@ =~= common_tools_v());
    r
}

/// The tools for the devices of a typical home.
pub fn get_my_device_tools() -> (r: Vec<Tool>)
    ensures
        r@ == my_device_tools_v(),
{
    let r = vec![Tool::SwitchPower, Tool::SetBrightness, Tool::SetColor, Tool::SetColorTemperature, Tool::ControlCurtain, Tool::TvPower, Tool::TvVolume, Tool::TvMute, Tool::TvChannel, Tool::TvInput, Tool::MediaPlayback, Tool::MediaVolume, Tool::AcControl, Tool::AirPurifier, Tool::Dehumidifier, Tool::OvenStatus, Tool::GetSensorData, Tool::GetEnergyData, Tool::GetBatteryStatus];
    assert(r@ =~= my_device_tools_v());
    r
}

/// The tools for less common devices.
pub fn get_extended_device_tools() -> (r: Vec<Tool>)
    ensures
        r@ == extended_device_tools_v(),
{
    let r = vec![Tool::RobotVacuum, Tool::DoorLock, Tool::Washer, Tool::Dryer, Tool::Dishwasher, Tool::Refrigerator, Tool::Thermostat, Tool::Alarm, Tool::SecuritySystem, Tool::GarageDoor, Tool::Valve, Tool::SmokeDetector, Tool::CoDetector, Tool::WaterLeak];
    assert(r@ =~= extended_device_tools_v());
    r
}

/// The arguments of a call of a tool, once read from JSON; the variant names the tool.
pub enum ToolInput {
    ListDevices(ListDevicesInput),
    GetDeviceStatus(GetDeviceStatusInput),
    SendCommand(SendCommandInput),
    ExecuteScene(ExecuteSceneInput),
    GetWeather(GetWeatherInput),
    SwitchPower(SwitchPowerInput),
    SetBrightness(SetBrightnessInput),
    SetColor(SetColorInput),
    SetColorTemperature(SetColorTemperatureInput),
    ControlCurtain(ControlCurtainInput),
    TvPower(TvPowerInput),
    TvVolume(TvVolumeInput),
    TvMute(TvMuteInput),
    TvChannel(TvChannelInput),
    TvInput(TvInputInput),
    MediaPlayback(MediaPlaybackInput),
    MediaVolume(MediaVolumeInput),
    AcControl(AcControlInput),
    AirPurifier(AirPurifierInput),
    Dehumidifier(DehumidifierInput),
    OvenStatus(OvenStatusInput),
    GetSensorData(GetSensorDataInput),
    GetEnergyData(GetEnergyDataInput),
    GetBatteryStatus(GetBatteryInput),
    RobotVacuum(RobotVacuumInput),
    DoorLock(DoorLockInput),
    Washer(WasherInput),
    Dryer(DryerInput),
    Dishwasher(DishwasherInput),
    Refrigerator(RefrigeratorInput),
    Thermostat(ThermostatInput),
    Alarm(AlarmInput),
    SecuritySystem(SecuritySystemInput),
    GarageDoor(GarageDoorInput),
    Valve(ValveInput),
    SmokeDetector(SafetySensorInput),
    CoDetector(SafetySensorInput),
    WaterLeak(SafetySensorInput),
}

impl ToolInput {
    /// The tool that the arguments are for.
    pub open spec fn tool_v(self) -> Tool {
        match self {
            ToolInput::ListDevices(_) => Tool::ListDevices,
            ToolInput::GetDeviceStatus(_) => Tool::GetDeviceStatus,
            ToolInput::SendCommand(_) => Tool::SendCommand,
            ToolInput::ExecuteScene(_) => Tool::ExecuteScene,
            ToolInput::GetWeather(_) => Tool::GetWeather,
            ToolInput::SwitchPower(_) => Tool::SwitchPower,
            ToolInput::SetBrightness(_) => Tool::SetBrightness,
            ToolInput::SetColor(_) => Tool::SetColor,
            ToolInput::SetColorTemperature(_) => Tool::SetColorTemperature,
            ToolInput::ControlCurtain(_) => Tool::ControlCurtain,
            ToolInput::TvPower(_) => Tool::TvPower,
            ToolInput::TvVolume(_) => Tool::TvVolume,
            ToolInput::TvMute(_) => Tool::TvMute,
            ToolInput::TvChannel(_) => Tool::TvChannel,
            ToolInput::TvInput(_) => Tool::TvInput,
            ToolInput::MediaPlayback(_) => Tool::MediaPlayback,
            ToolInput::MediaVolume(_) => Tool::MediaVolume,
            ToolInput::AcControl(_) => Tool::AcControl,
            ToolInput::AirPurifier(_) => Tool::AirPurifier,
            ToolInput::Dehumidifier(_) => Tool::Dehumidifier,
            ToolInput::OvenStatus(_) => Tool::OvenStatus,
            ToolInput::GetSensorData(_) => Tool::GetSensorData,
            ToolInput::GetEnergyData(_) => Tool::GetEnergyData,
            ToolInput::GetBatteryStatus(_) => Tool::GetBatteryStatus,
            ToolInput::RobotVacuum(_) => Tool::RobotVacuum,
            ToolInput::DoorLock(_) => Tool::DoorLock,
            ToolInput::Washer(_) => Tool::Washer,
            ToolInput::Dryer(_) => Tool::Dryer,
            ToolInput::Dishwasher(_) => Tool::Dishwasher,
            ToolInput::Refrigerator(_) => Tool::Refrigerator,
            ToolInput::Thermostat(_) => Tool::Thermostat,
            ToolInput::Alarm(_) => Tool::Alarm,
            ToolInput::SecuritySystem(_) => Tool::SecuritySystem,
            ToolInput::GarageDoor(_) => Tool::GarageDoor,
            ToolInput::Valve(_) => Tool::Valve,
            ToolInput::SmokeDetector(_) => Tool::SmokeDetector,
            ToolInput::CoDetector(_) => Tool::CoDetector,
            ToolInput::WaterLeak(_) => Tool::WaterLeak,
        }
    }

    /// The tool that the arguments are for.
    pub fn tool(&self) -> (r: Tool)
        ensures
            r == self.tool_v(),
    {
        match self {
            ToolInput::ListDevices(_) => Tool::ListDevices,
            ToolInput::GetDeviceStatus(_) => Tool::GetDeviceStatus,
            ToolInput::SendCommand(_) => Tool::SendCommand,
            ToolInput::ExecuteScene(_) => Tool::ExecuteScene,
            ToolInput::GetWeather(_) => Tool::GetWeather,
            ToolInput::SwitchPower(_) => Tool::SwitchPower,
            ToolInput::SetBrightness(_) => Tool::SetBrightness,
            ToolInput::SetColor(_) => Tool::SetColor,
            ToolInput::SetColorTemperature(_) => Tool::SetColorTemperature,
            ToolInput::ControlCurtain(_) => Tool::ControlCurtain,
            ToolInput::TvPower(_) => Tool::TvPower,
            ToolInput::TvVolume(_) => Tool::TvVolume,
            ToolInput::TvMute(_) => Tool::TvMute,
            ToolInput::TvChannel(_) => Tool::TvChannel,
            ToolInput::TvInput(_) => Tool::TvInput,
            ToolInput::MediaPlayback(_) => Tool::MediaPlayback,
            ToolInput::MediaVolume(_) => Tool::MediaVolume,
            ToolInput::AcControl(_) => Tool::AcControl,
            ToolInput::AirPurifier(_) => Tool::AirPurifier,
            ToolInput::Dehumidifier(_) => Tool::Dehumidifier,
            ToolInput::OvenStatus(_) => Tool::OvenStatus,
            ToolInput::GetSensorData(_) => Tool::GetSensorData,
            ToolInput::GetEnergyData(_) => Tool::GetEnergyData,
            ToolInput::GetBatteryStatus(_) => Tool::GetBatteryStatus,
            ToolInput::RobotVacuum(_) => Tool::RobotVacuum,
            ToolInput::DoorLock(_) => Tool::DoorLock,
            ToolInput::Washer(_) => Tool::Washer,
            ToolInput::Dryer(_) => Tool::Dryer,
            ToolInput::Dishwasher(_) => Tool::Dishwasher,
            ToolInput::Refrigerator(_) => Tool::Refrigerator,
            ToolInput::Thermostat(_) => Tool::Thermostat,
            ToolInput::Alarm(_) => Tool::Alarm,
            ToolInput::SecuritySystem(_) => Tool::SecuritySystem,
            ToolInput::GarageDoor(_) => Tool::GarageDoor,
            ToolInput::Valve(_) => Tool::Valve,
            ToolInput::SmokeDetector(_) => Tool::SmokeDetector,
            ToolInput::CoDetector(_) => Tool::CoDetector,
            ToolInput::WaterLeak(_) => Tool::WaterLeak,
        }
    }

    /// The requests that the call sends, in order, or the message with which it is refused.
    pub open spec fn plan_v(self) -> Result<Seq<ApiRequestV>, Seq<char>> {
        match self {
            ToolInput::ListDevices(i) => ListDevicesTool::plan_v(i),
            ToolInput::GetDeviceStatus(i) => GetDeviceStatusTool::plan_v(i),
            ToolInput::SendCommand(i) => SendCommandTool::plan_v(i),
            ToolInput::ExecuteScene(i) => ExecuteSceneTool::plan_v(i),
            ToolInput::GetWeather(i) => GetWeatherTool::plan_v(i),
            ToolInput::SwitchPower(i) => SwitchPowerTool::plan_v(i),
            ToolInput::SetBrightness(i) => SetBrightnessTool::plan_v(i),
            ToolInput::SetColor(i) => SetColorTool::plan_v(i),
            ToolInput::SetColorTemperature(i) => SetColorTemperatureTool::plan_v(i),
            ToolInput::ControlCurtain(i) => ControlCurtainTool::plan_v(i),
            ToolInput::TvPower(i) => TvPowerTool::plan_v(i),
            ToolInput::TvVolume(i) => TvVolumeTool::plan_v(i),
            ToolInput::TvMute(i) => TvMuteTool::plan_v(i),
            ToolInput::TvChannel(i) => TvChannelTool::plan_v(i),
            ToolInput::TvInput(i) => TvInputTool::plan_v(i),
            ToolInput::MediaPlayback(i) => MediaPlaybackTool::plan_v(i),
            ToolInput::MediaVolume(i) => MediaVolumeTool::plan_v(i),
            ToolInput::AcControl(i) => AcControlTool::plan_v(i),
            ToolInput::AirPurifier(i) => AirPurifierTool::plan_v(i),
            ToolInput::Dehumidifier(i) => DehumidifierTool::plan_v(i),
            ToolInput::OvenStatus(i) => OvenStatusTool::plan_v(i),
            ToolInput::GetSensorData(i) => GetSensorDataTool::plan_v(i),
            ToolInput::GetEnergyData(i) => GetEnergyDataTool::plan_v(i),
            ToolInput::GetBatteryStatus(i) => GetBatteryStatusTool::plan_v(i),
            ToolInput::RobotVacuum(i) => RobotVacuumTool::plan_v(i),
            ToolInput::DoorLock(i) => DoorLockTool::plan_v(i),
            ToolInput::Washer(i) => WasherTool::plan_v(i),
            ToolInput::Dryer(i) => DryerTool::plan_v(i),
            ToolInput::Dishwasher(i) => DishwasherTool::plan_v(i),
            ToolInput::Refrigerator(i) => RefrigeratorTool::plan_v(i),
            ToolInput::Thermostat(i) => ThermostatTool::plan_v(i),
            ToolInput::Alarm(i) => AlarmTool::plan_v(i),
            ToolInput::SecuritySystem(i) => SecuritySystemTool::plan_v(i),
            ToolInput::GarageDoor(i) => GarageDoorTool::plan_v(i),
            ToolInput::Valve(i) => ValveTool::plan_v(i),
            ToolInput::SmokeDetector(i) => SmokeDetectorTool::plan_v(i),
            ToolInput::CoDetector(i) => CoDetectorTool::plan_v(i),
            ToolInput::WaterLeak(i) => WaterLeakTool::plan_v(i),
        }
    }

    /// The result of the call once every request of the plan was answered without an error.
    pub open spec fn finish_v(self, replies: Seq<ResponseV>) -> ToolResultV {
        match self {
            ToolInput::ListDevices(i) => ListDevicesTool::finish_v(i, replies),
            ToolInput::GetDeviceStatus(i) => GetDeviceStatusTool::finish_v(i, replies),
            ToolInput::SendCommand(i) => SendCommandTool::finish_v(i, replies),
            ToolInput::ExecuteScene(i) => ExecuteSceneTool::finish_v(i, replies),
            ToolInput::GetWeather(i) => GetWeatherTool::finish_v(i, replies),
            ToolInput::SwitchPower(i) => SwitchPowerTool::finish_v(i, replies),
            ToolInput::SetBrightness(i) => SetBrightnessTool::finish_v(i, replies),
            ToolInput::SetColor(i) => SetColorTool::finish_v(i, replies),
            ToolInput::SetColorTemperature(i) => SetColorTemperatureTool::finish_v(i, replies),
            ToolInput::ControlCurtain(i) => ControlCurtainTool::finish_v(i, replies),
            ToolInput::TvPower(i) => TvPowerTool::finish_v(i, replies),
            ToolInput::TvVolume(i) => TvVolumeTool::finish_v(i, replies),
            ToolInput::TvMute(i) => TvMuteTool::finish_v(i, replies),
            ToolInput::TvChannel(i) => TvChannelTool::finish_v(i, replies),
            ToolInput::TvInput(i) => TvInputTool::finish_v(i, replies),
            ToolInput::MediaPlayback(i) => MediaPlaybackTool::finish_v(i, replies),
            ToolInput::MediaVolume(i) => MediaVolumeTool::finish_v(i, replies),
            ToolInput::AcControl(i) => AcControlTool::finish_v(i, replies),
            ToolInput::AirPurifier(i) => AirPurifierTool::finish_v(i, replies),
            ToolInput::Dehumidifier(i) => DehumidifierTool::finish_v(i, replies),
            ToolInput::OvenStatus(i) => OvenStatusTool::finish_v(i, replies),
            ToolInput::GetSensorData(i) => GetSensorDataTool::finish_v(i, replies),
            ToolInput::GetEnergyData(i) => GetEnergyDataTool::finish_v(i, replies),
            ToolInput::GetBatteryStatus(i) => GetBatteryStatusTool::finish_v(i, replies),
            ToolInput::RobotVacuum(i) => RobotVacuumTool::finish_v(i, replies),
            ToolInput::DoorLock(i) => DoorLockTool::finish_v(i, replies),
            ToolInput::Washer(i) => WasherTool::finish_v(i, replies),
            ToolInput::Dryer(i) => DryerTool::finish_v(i, replies),
            ToolInput::Dishwasher(i) => DishwasherTool::finish_v(i, replies),
            ToolInput::Refrigerator(i) => RefrigeratorTool::finish_v(i, replies),
            ToolInput::Thermostat(i) => ThermostatTool::finish_v(i, replies),
            ToolInput::Alarm(i) => AlarmTool::finish_v(i, replies),
            ToolInput::SecuritySystem(i) => SecuritySystemTool::finish_v(i, replies),
            ToolInput::GarageDoor(i) => GarageDoorTool::finish_v(i, replies),
            ToolInput::Valve(i) => ValveTool::finish_v(i, replies),
            ToolInput::SmokeDetector(i) => SmokeDetectorTool::finish_v(i, replies),
            ToolInput::CoDetector(i) => CoDetectorTool::finish_v(i, replies),
            ToolInput::WaterLeak(i) => WaterLeakTool::finish_v(i, replies),
        }
    }

    /// The plan.
    pub fn plan(&self, client: &SmartThingsClient) -> (r: Result<Vec<ApiRequest>, String>)
        ensures
            plan_view(r) == self.plan_v(),
    {
        match self {
            ToolInput::ListDevices(i) => ListDevicesTool { client }.plan(i),
            ToolInput::GetDeviceStatus(i) => GetDeviceStatusTool { client }.plan(i),
            ToolInput::SendCommand(i) => SendCommandTool { client }.plan(i),
            ToolInput::ExecuteScene(i) => ExecuteSceneTool { client }.plan(i),
            ToolInput::GetWeather(i) => GetWeatherTool { client }.plan(i),
            ToolInput::SwitchPower(i) => SwitchPowerTool { client }.plan(i),
            ToolInput::SetBrightness(i) => SetBrightnessTool { client }.plan(i),
            ToolInput::SetColor(i) => SetColorTool { client }.plan(i),
            ToolInput::SetColorTemperature(i) => SetColorTemperatureTool { client }.plan(i),
            ToolInput::ControlCurtain(i) => ControlCurtainTool { client }.plan(i),
            ToolInput::TvPower(i) => TvPowerTool { client }.plan(i),
            ToolInput::TvVolume(i) => TvVolumeTool { client }.plan(i),
            ToolInput::TvMute(i) => TvMuteTool { client }.plan(i),
            ToolInput::TvChannel(i) => TvChannelTool { client }.plan(i),
            ToolInput::TvInput(i) => TvInputTool { client }.plan(i),
            ToolInput::MediaPlayback(i) => MediaPlaybackTool { client }.plan(i),
            ToolInput::MediaVolume(i) => MediaVolumeTool { client }.plan(i),
            ToolInput::AcControl(i) => AcControlTool { client }.plan(i),
            ToolInput::AirPurifier(i) => AirPurifierTool { client }.plan(i),
            ToolInput::Dehumidifier(i) => DehumidifierTool { client }.plan(i),
            ToolInput::OvenStatus(i) => OvenStatusTool { client }.plan(i),
            ToolInput::GetSensorData(i) => GetSensorDataTool { client }.plan(i),
            ToolInput::GetEnergyData(i) => GetEnergyDataTool { client }.plan(i),
            ToolInput::GetBatteryStatus(i) => GetBatteryStatusTool { client }.plan(i),
            ToolInput::RobotVacuum(i) => RobotVacuumTool { client }.plan(i),
            ToolInput::DoorLock(i) => DoorLockTool { client }.plan(i),
            ToolInput::Washer(i) => WasherTool { client }.plan(i),
            ToolInput::Dryer(i) => DryerTool { client }.plan(i),
            ToolInput::Dishwasher(i) => DishwasherTool { client }.plan(i),
            ToolInput::Refrigerator(i) => RefrigeratorTool { client }.plan(i),
            ToolInput::Thermostat(i) => ThermostatTool { client }.plan(i),
            ToolInput::Alarm(i) => AlarmTool { client }.plan(i),
            ToolInput::SecuritySystem(i) => SecuritySystemTool { client }.plan(i),
            ToolInput::GarageDoor(i) => GarageDoorTool { client }.plan(i),
            ToolInput::Valve(i) => ValveTool { client }.plan(i),
            ToolInput::SmokeDetector(i) => SmokeDetectorTool { client }.plan(i),
            ToolInput::CoDetector(i) => CoDetectorTool { client }.plan(i),
            ToolInput::WaterLeak(i) => WaterLeakTool { client }.plan(i),
        }
    }

    /// The result of the call from the replies to its plan.
    pub fn finish(&self, client: &SmartThingsClient, replies: &Vec<Response>) -> (r: ToolResult)
        requires
            self.plan_v() is Ok,
            replies.len() == plan_len(self.plan_v()),
        ensures
            r@ == self.finish_v(responses_view(replies@)),
    {
        match self {
            ToolInput::ListDevices(i) => ListDevicesTool { client }.finish(i, replies),
            ToolInput::GetDeviceStatus(i) => GetDeviceStatusTool { client }.finish(i, replies),
            ToolInput::SendCommand(i) => SendCommandTool { client }.finish(i, replies),
            ToolInput::ExecuteScene(i) => ExecuteSceneTool { client }.finish(i, replies),
            ToolInput::GetWeather(i) => GetWeatherTool { client }.finish(i, replies),
            ToolInput::SwitchPower(i) => SwitchPowerTool { client }.finish(i, replies),
            ToolInput::SetBrightness(i) => SetBrightnessTool { client }.finish(i, replies),
            ToolInput::SetColor(i) => SetColorTool { client }.finish(i, replies),
            ToolInput::SetColorTemperature(i) => SetColorTemperatureTool { client }.finish(i, replies),
            ToolInput::ControlCurtain(i) => ControlCurtainTool { client }.finish(i, replies),
            ToolInput::TvPower(i) => TvPowerTool { client }.finish(i, replies),
            ToolInput::TvVolume(i) => TvVolumeTool { client }.finish(i, replies),
            ToolInput::TvMute(i) => TvMuteTool { client }.finish(i, replies),
            ToolInput::TvChannel(i) => TvChannelTool { client }.finish(i, replies),
            ToolInput::TvInput(i) => TvInputTool { client }.finish(i, replies),
            ToolInput::MediaPlayback(i) => MediaPlaybackTool { client }.finish(i, replies),
            ToolInput::MediaVolume(i) => MediaVolumeTool { client }.finish(i, replies),
            ToolInput::AcControl(i) => AcControlTool { client }.finish(i, replies),
            ToolInput::AirPurifier(i) => AirPurifierTool { client }.finish(i, replies),
            ToolInput::Dehumidifier(i) => DehumidifierTool { client }.finish(i, replies),
            ToolInput::OvenStatus(i) => OvenStatusTool { client }.finish(i, replies),
            ToolInput::GetSensorData(i) => GetSensorDataTool { client }.finish(i, replies),
            ToolInput::GetEnergyData(i) => GetEnergyDataTool { client }.finish(i, replies),
            ToolInput::GetBatteryStatus(i) => GetBatteryStatusTool { client }.finish(i, replies),
            ToolInput::RobotVacuum(i) => RobotVacuumTool { client }.finish(i, replies),
            ToolInput::DoorLock(i) => DoorLockTool { client }.finish(i, replies),
            ToolInput::Washer(i) => WasherTool { client }.finish(i, replies),
            ToolInput::Dryer(i) => DryerTool { client }.finish(i, replies),
            ToolInput::Dishwasher(i) => DishwasherTool { client }.finish(i, replies),
            ToolInput::Refrigerator(i) => RefrigeratorTool { client }.finish(i, replies),
            ToolInput::Thermostat(i) => ThermostatTool { client }.finish(i, replies),
            ToolInput::Alarm(i) => AlarmTool { client }.finish(i, replies),
            ToolInput::SecuritySystem(i) => SecuritySystemTool { client }.finish(i, replies),
            ToolInput::GarageDoor(i) => GarageDoorTool { client }.finish(i, replies),
            ToolInput::Valve(i) => ValveTool { client }.finish(i, replies),
            ToolInput::SmokeDetector(i) => SmokeDetectorTool { client }.finish(i, replies),
            ToolInput::CoDetector(i) => CoDetectorTool { client }.finish(i, replies),
            ToolInput::WaterLeak(i) => WaterLeakTool { client }.finish(i, replies),
        }
    }

}

} // verus!
