//! Verified core of a Bluetooth adapter and device manager.
//!
//! The library models the decision layer of the manager: classifying
//! discovered devices from their advertised service identifiers, parsing
//! canonical hardware addresses, maintaining the set of known adapters with
//! an elected default, and turning caller requests into commands for the
//! system Bluetooth service. All I/O against that service lives outside
//! this crate; the functions here compute on plain values and are verified.

pub mod adapter;
pub mod address;
pub mod classify;
pub mod device;
pub mod errors;
pub mod manager;

pub use errors::BluetoothError;
