use vstd::prelude::*;

verus! {

/// Errors of the library's own logic.
///
/// Transport failures (the Bluetooth stack) are not represented here: they
/// arise only where the radio is driven, outside the protocol logic.
#[derive(Debug, Clone, PartialEq, Eq)]
pub enum StorzError {
    /// No adapter or device was available.
    DeviceNotFound,
    /// Bytes from the device, or a value to be sent, did not fit the protocol.
    ParseError(String),
    /// The device model does not offer the requested operation.
    UnsupportedOperation { device: String, operation: String },
}

impl StorzError {
    /// `self` is a `ParseError` carrying exactly the message `msg`.
    pub open spec fn is_parse_error_with(self, msg: Seq<char>) -> bool {
        self matches StorzError::ParseError(m) && m@ == msg
    }

    /// `self` is an `UnsupportedOperation` naming `device` and `operation`.
    pub open spec fn is_unsupported(self, device: Seq<char>, operation: Seq<char>) -> bool {
        self matches StorzError::UnsupportedOperation { device: d, operation: o } && d@ == device
            && o@ == operation
    }
}

} // verus!
