//! What each tool takes, as the library holds it once the JSON arguments have been read.
pub mod common;
pub mod extended_devices;
pub mod my_devices;
