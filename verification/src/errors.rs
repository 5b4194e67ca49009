//! Error kinds returned by the registry operations.
//!
//! Every kind is a permanent rejection of the specific request, not a
//! transient fault: the caller must change its input or accept the existing
//! state.

use vstd::prelude::*;

verus! {

/// The reasons a registry operation can reject a request.
#[derive(Clone, Copy, Debug, PartialEq, Eq, Structural)]
pub enum KTSError {
    /// A create was attempted at an occupied device key.
    DeviceAlreadyRegistered,
    /// The caller identity does not match the stored owner, or the request
    /// names a fingerprint with no matching stored record.
    InvalidDeviceOwner,
    /// A create was attempted at an occupied usage key.
    DailyUsageAlreadyUploaded,
    /// A process name exceeds `MAX_PROCESS_NAME_LENGTH` bytes.
    InvalidProcessNameLength,
    /// The process list length differs from `PROCESS_ARRAY_SIZE`.
    InvalidTopProcessesArraySize,
    /// The device name exceeds `MAX_DEVICE_NAME_LENGTH` bytes.
    InvalidDeviceNameLength,
    /// A second certificate issuance was attempted for the same device.
    CertificateAlreadyIssued,
    /// The host could not derive a storage address from the given seeds.
    AddressDerivationFailed,
}

} // verus!
