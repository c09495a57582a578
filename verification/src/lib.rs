//! A controller-navigable Bluetooth manager.
//!
//! - [`model`]: devices, the snapshot that is drawn, and commands
//! - [`order`]: the order of the device list
//! - [`listing`]: from what the adapter reports to the snapshot
//! - [`job`]: commands as step-by-step jobs
//! - [`worker`]: the life of the Bluetooth worker
//! - [`input`]: what buttons and keys do
//! - [`screen`]: what a frame shows
//! - [`font`]: which font file is used
//! - [`text`]: small string operations

pub mod font;
pub mod input;
pub mod job;
pub mod listing;
pub mod model;
pub mod order;
pub mod screen;
pub mod text;
pub mod worker;
