//! An HSM (hardware security module) client abstraction layer with a
//! verified in-memory reference backend.
//!
//! The crate models the three interface families of an edge-runtime HSM
//! client — TPM-backed identity, X.509-backed identity, and generic crypto
//! operations — together with the certificate-properties protocol that
//! parameterizes certificate issuance, the sized-buffer ownership
//! convention used for every variable-length output, and the per-family
//! module lifecycle.

pub mod buffer;
pub mod cert;
pub mod crypto;
pub mod interfaces;
pub mod lifecycle;
pub mod errors;
pub mod mixer;
pub mod props;
pub mod tpm;
pub mod x509;
