//! The tools for the devices of a typical home: switches, lights, curtains, TV, media,
//! air conditioning, air quality, oven, sensors and energy.
pub mod air_quality;
pub mod climate;
pub mod curtain;
pub mod energy;
pub mod light;
pub mod media;
pub mod oven;
pub mod sensor;
pub mod switch;
pub mod tv;
