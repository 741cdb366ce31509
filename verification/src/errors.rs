//! Error taxonomy of the manager layer.

use vstd::prelude::*;

verus! {

/// Every failure the library or its callers can observe.
///
/// `SystemServiceUnavailable` and `OperationFailed` carry the diagnostic
/// text of the system Bluetooth service; the caller-correctable errors
/// (`InvalidAddress`, `DeviceNotFound`) and the recoverable startup state
/// (`NoDefaultAdapter`) carry none.
#[derive(Debug, Clone, PartialEq, Eq)]
pub enum BluetoothError {
    /// The system Bluetooth service cannot be reached at all.
    SystemServiceUnavailable(String),
    /// No adapter has been elected as default (none present, or discovery
    /// never run); expected during startup, recoverable.
    NoDefaultAdapter,
    /// The requested device address is unknown to the adapter.
    DeviceNotFound,
    /// The caller passed an address that is not in canonical form.
    InvalidAddress,
    /// The service was reached but rejected the action; the payload is the
    /// service's own diagnostic text, surfaced verbatim.
    OperationFailed(String),
}

impl BluetoothError {
    /// A short human-readable description of the failure.
    pub fn message(&self) -> (r: String)
        ensures
            r@ == self.message_spec(),
    {
        match self {
            BluetoothError::SystemServiceUnavailable(text) => {
                String::from_str("Bluetooth service unavailable: ").concat(text.as_str())
            },
            BluetoothError::NoDefaultAdapter => {
                String::from_str("No default adapter available")
            },
            BluetoothError::DeviceNotFound => String::from_str("Device not found"),
            BluetoothError::InvalidAddress => String::from_str("Invalid device address"),
            BluetoothError::OperationFailed(text) => text.clone(),
        }
    }

    /// What `message` returns for each variant.
    pub open spec fn message_spec(self) -> Seq<char> {
        match self {
            BluetoothError::SystemServiceUnavailable(text) => {
                "Bluetooth service unavailable: "@ + text@
            },
            BluetoothError::NoDefaultAdapter => "No default adapter available"@,
            BluetoothError::DeviceNotFound => "Device not found"@,
            BluetoothError::InvalidAddress => "Invalid device address"@,
            BluetoothError::OperationFailed(text) => text@,
        }
    }
}

} // verus!
