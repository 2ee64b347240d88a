//! The tools for less common devices: robot vacuum, lock, laundry, dishwasher,
//! refrigerator, thermostat, alarm and security system, garage door, valve, safety sensors.
pub mod dishwasher;
pub mod door_valve;
pub mod laundry;
pub mod lock;
pub mod refrigerator;
pub mod safety_sensor;
pub mod security;
pub mod thermostat;
pub mod vacuum;
