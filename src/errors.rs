//! The radio errors surfaced by both roles.

use vstd::prelude::*;

verus! {

/// One kind per failing radio operation. Discovery failures of every cause
/// share one kind.
#[derive(Clone, Copy, Debug, PartialEq, Eq, Structural)]
pub enum BleError {
    Encryption,
    ConnectError,
    DiscoveryError,
    WriteError,
    ReadError,
    AdvertiseError,
    NotifyValueError,
    IndicateValueError,
    SetValueError,
}

impl BleError {
    /// Link errors (encryption, connect, discovery, advertise) are transient
    /// and answered by the owning role retrying; the others concern a single
    /// GATT operation.
    pub open spec fn spec_is_link_error(self) -> bool {
        matches!(
            self,
            BleError::Encryption | BleError::ConnectError | BleError::DiscoveryError
                | BleError::AdvertiseError
        )
    }

    /// Whether this is a link error rather than a GATT operation error.
    pub fn is_link_error(&self) -> (r: bool)
        ensures
            r == self.spec_is_link_error(),
    {
        match self {
            BleError::Encryption | BleError::ConnectError | BleError::DiscoveryError
            | BleError::AdvertiseError => true,
            _ => false,
        }
    }
}

} // verus!
