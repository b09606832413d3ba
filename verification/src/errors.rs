use vstd::prelude::*;

verus! {

/// The failure taxonomy shared by every interface family.
///
/// Every operation reports failure through this enum rather than
/// panicking; `BufferTooSmall` carries the exact number of bytes the
/// caller must provide for the read to succeed.
#[derive(Clone, Copy, Debug, PartialEq, Eq, Structural)]
pub enum HsmError {
    /// Malformed or oversized input, or a value a backend constraint refuses.
    InvalidArgument,
    /// Stale, never-valid, or foreign handle.
    InvalidHandle,
    /// A fixed-capacity read was offered fewer bytes than the value needs.
    BufferTooSmall { required: usize },
    /// The operation needs a provisioning step that has not happened yet.
    NotProvisioned,
    /// An idempotency guard: the provisioning step already happened.
    AlreadyProvisioned,
    /// Certificate issuance named an issuer alias the backend does not know.
    UnknownIssuer,
    /// Opaque lower-layer fault.
    BackendFailure,
    /// The backend's capability table does not carry this operation.
    NotSupported,
}

} // verus!
