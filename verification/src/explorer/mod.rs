//! The logic of a command-line survey of the SmartThings API: which endpoints it tries,
//! in what order, what it keeps from each reply, and how it reports and logs the results.
pub mod api;
pub mod calendar;
pub mod client;
pub mod endpoint;
pub mod laws;
pub mod logger;
pub mod models;
pub mod reporter;
pub mod runner;
pub mod stamp_order;
