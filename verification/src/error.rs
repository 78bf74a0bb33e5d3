//! The ways in which a run can fail.

use vstd::prelude::*;

verus! {

/// Why a run stopped before its reads were done.
///
/// Every failure ends the run: nothing is retried, and values that were
/// already reported stay reported.
#[derive(Clone, Copy, Debug, PartialEq, Eq, Structural)]
pub enum RunError {
    /// No usable Bluetooth radio was found: the adapter list was empty or
    /// could not be obtained.
    NoAdapter,
    /// The advertisement data of a peripheral could not be read while names
    /// were being examined.
    ScanProperty,
    /// The scan window closed and no advertised name held the target text.
    NoMatchFound,
    /// The link to the chosen peripheral could not be set up.
    Connection,
    /// The services and characteristics of the connected peripheral could not
    /// be enumerated.
    Discovery,
    /// The peripheral does not offer the characteristic that was asked for.
    CharacteristicNotFound,
    /// A read of the characteristic failed or was rejected.
    Read,
}

impl RunError {
    /// The text of `message`, variant by variant.
    pub open spec fn message_text(self) -> Seq<char> {
        match self {
            RunError::NoAdapter => "adapter: no usable Bluetooth radio found"@,
            RunError::ScanProperty => "scan: advertisement data of a peripheral could not be read"@,
            RunError::NoMatchFound => "scan: no peripheral name matched the target"@,
            RunError::Connection => "connect: the link to the peripheral could not be established"@,
            RunError::Discovery => "discover: services and characteristics could not be enumerated"@,
            RunError::CharacteristicNotFound => "resolve: the target characteristic is absent"@,
            RunError::Read => "poll: a characteristic read failed"@,
        }
    }

    /// One line for the operator: the stage that failed, then the reason.
    pub fn message(&self) -> (text: &'static str)
        ensures
            text@ == self.message_text(),
    {
        match self {
            RunError::NoAdapter => "adapter: no usable Bluetooth radio found",
            RunError::ScanProperty => "scan: advertisement data of a peripheral could not be read",
            RunError::NoMatchFound => "scan: no peripheral name matched the target",
            RunError::Connection => "connect: the link to the peripheral could not be established",
            RunError::Discovery => "discover: services and characteristics could not be enumerated",
            RunError::CharacteristicNotFound => "resolve: the target characteristic is absent",
            RunError::Read => "poll: a characteristic read failed",
        }
    }
}

} // verus!
