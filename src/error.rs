//! Errors of the driver and of the bus it rides on.

use vstd::prelude::*;

verus! {

/// Why the bus controller aborted a transfer.
#[derive(Clone, Copy, Debug, PartialEq, Eq, Structural)]
pub enum AbortReason {
    /// The addressed device did not acknowledge.
    NoAcknowledge,
    /// Arbitration was lost, e.g. by trouble on the clock line.
    ArbitrationLoss,
    /// The transfer ended with data still in the transmit FIFO.
    TxNotEmpty(u16),
    /// Any other abort, with the controller's raw abort source.
    Other(u32),
}

/// A failure reported by the bus controller.
#[derive(Clone, Copy, Debug, PartialEq, Eq, Structural)]
pub enum BusError {
    /// The transfer was aborted on the bus.
    Abort(AbortReason),
    /// A read was asked for with an empty buffer.
    InvalidReadBufferLength,
    /// A write was asked for with an empty buffer.
    InvalidWriteBufferLength,
    /// The target address does not fit in the address space.
    AddressOutOfRange(u16),
    /// The target address is one the bus reserves.
    AddressReserved(u16),
}

impl BusError {
    /// Whether the failure happened on the wire. Every other failure means
    /// that the driver handed the controller a malformed request, which is a
    /// defect of the driver and not a condition to recover from.
    pub open spec fn spec_is_abort(self) -> bool {
        self is Abort
    }

    pub fn is_abort(&self) -> (r: bool)
        ensures
            r == self.spec_is_abort(),
    {
        match self {
            BusError::Abort(_) => true,
            _ => false,
        }
    }
}

/// A transfer on the bus failed; holds the reason, unchanged.
#[derive(Clone, Copy, Debug, PartialEq, Eq, Structural)]
pub struct I2CError(pub AbortReason);

impl I2CError {
    /// The transport error for a bus failure. Only aborts are transport
    /// errors: the other failures are defects and must stop the program
    /// before they reach this point.
    pub fn from(e: BusError) -> (r: I2CError)
        requires
            e.spec_is_abort(),
        ensures
            e == BusError::Abort(r.0),
    {
        match e {
            BusError::Abort(reason) => I2CError(reason),
            // not reached: `requires` admits aborts only
            _ => I2CError(AbortReason::Other(0)),
        }
    }
}

/// Why a soil sensor could not be set up.
#[derive(Clone, Copy, Debug, PartialEq, Eq, Structural)]
pub enum SetupError {
    /// The bus failed while the hardware id was read.
    I2C(I2CError),
    /// The device answered with another hardware id than a soil sensor's:
    /// it is not connected, not working, or not a soil sensor.
    InvalidDevice { hw_id: u8 },
    /// The address is not one a soil sensor can be configured to (0x36 to
    /// 0x39, inclusive).
    InvalidI2CAddress { address: u8 },
}

impl From<I2CError> for SetupError {
    fn from(e: I2CError) -> (r: SetupError) {
        SetupError::I2C(e)
    }
}

impl vstd::std_specs::convert::FromSpecImpl<I2CError> for SetupError {
    open spec fn obeys_from_spec() -> bool {
        true
    }

    open spec fn from_spec(e: I2CError) -> SetupError {
        SetupError::I2C(e)
    }
}

} // verus!
