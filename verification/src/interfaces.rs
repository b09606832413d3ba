use vstd::prelude::*;

use crate::errors::HsmError;

verus! {

/// Checks a capability-table entry before invoking it: an absent entry
/// is answered with `NotSupported` instead of being called blindly.
pub fn check_entry(present: bool) -> (r: Result<(), HsmError>)
    ensures
        present ==> r is Ok,
        !present ==> r == Result::<(), HsmError>::Err(HsmError::NotSupported),
{
    if present {
        Result::Ok(())
    } else {
        Result::Err(HsmError::NotSupported)
    }
}

/// The TPM interface's capability table: one entry per operation,
/// retrieved once from a backend. An absent entry means the backend
/// does not support that operation, and callers must check before
/// invoking.
#[allow(non_camel_case_types)]
#[derive(Clone, Copy, Debug, PartialEq, Eq, Structural)]
pub struct HSM_CLIENT_TPM_INTERFACE_TAG {
    pub hsm_client_tpm_create: bool,
    pub hsm_client_tpm_destroy: bool,
    pub hsm_client_activate_identity_key: bool,
    pub hsm_client_get_ek: bool,
    pub hsm_client_get_srk: bool,
    pub hsm_client_sign_with_identity: bool,
    pub hsm_client_derive_and_sign_with_identity: bool,
    pub hsm_client_free_buffer: bool,
}

impl Default for HSM_CLIENT_TPM_INTERFACE_TAG {
    /// The empty table: every entry absent.
    fn default() -> (d: HSM_CLIENT_TPM_INTERFACE_TAG)
        ensures
            !d.hsm_client_tpm_create,
            !d.hsm_client_tpm_destroy,
            !d.hsm_client_activate_identity_key,
            !d.hsm_client_get_ek,
            !d.hsm_client_get_srk,
            !d.hsm_client_sign_with_identity,
            !d.hsm_client_derive_and_sign_with_identity,
            !d.hsm_client_free_buffer,
    {
        HSM_CLIENT_TPM_INTERFACE_TAG {
            hsm_client_tpm_create: false,
            hsm_client_tpm_destroy: false,
            hsm_client_activate_identity_key: false,
            hsm_client_get_ek: false,
            hsm_client_get_srk: false,
            hsm_client_sign_with_identity: false,
            hsm_client_derive_and_sign_with_identity: false,
            hsm_client_free_buffer: false,
        }
    }
}

/// The table the reference software backend publishes: it implements
/// every TPM operation.
pub fn hsm_client_tpm_interface() -> (t: HSM_CLIENT_TPM_INTERFACE_TAG)
    ensures
        t.hsm_client_tpm_create,
        t.hsm_client_tpm_destroy,
        t.hsm_client_activate_identity_key,
        t.hsm_client_get_ek,
        t.hsm_client_get_srk,
        t.hsm_client_sign_with_identity,
        t.hsm_client_derive_and_sign_with_identity,
        t.hsm_client_free_buffer,
{
    HSM_CLIENT_TPM_INTERFACE_TAG {
        hsm_client_tpm_create: true,
        hsm_client_tpm_destroy: true,
        hsm_client_activate_identity_key: true,
        hsm_client_get_ek: true,
        hsm_client_get_srk: true,
        hsm_client_sign_with_identity: true,
        hsm_client_derive_and_sign_with_identity: true,
        hsm_client_free_buffer: true,
    }
}

/// The X.509 interface's capability table.
#[allow(non_camel_case_types)]
#[derive(Clone, Copy, Debug, PartialEq, Eq, Structural)]
pub struct HSM_CLIENT_X509_INTERFACE_TAG {
    pub hsm_client_x509_create: bool,
    pub hsm_client_x509_destroy: bool,
    pub hsm_client_get_cert: bool,
    pub hsm_client_get_key: bool,
    pub hsm_client_get_common_name: bool,
    pub hsm_client_free_buffer: bool,
}

impl Default for HSM_CLIENT_X509_INTERFACE_TAG {
    /// The empty table: every entry absent.
    fn default() -> (d: HSM_CLIENT_X509_INTERFACE_TAG)
        ensures
            !d.hsm_client_x509_create,
            !d.hsm_client_x509_destroy,
            !d.hsm_client_get_cert,
            !d.hsm_client_get_key,
            !d.hsm_client_get_common_name,
            !d.hsm_client_free_buffer,
    {
        HSM_CLIENT_X509_INTERFACE_TAG {
            hsm_client_x509_create: false,
            hsm_client_x509_destroy: false,
            hsm_client_get_cert: false,
            hsm_client_get_key: false,
            hsm_client_get_common_name: false,
            hsm_client_free_buffer: false,
        }
    }
}

/// The table the reference software backend publishes: it implements
/// every X.509 operation.
pub fn hsm_client_x509_interface() -> (t: HSM_CLIENT_X509_INTERFACE_TAG)
    ensures
        t.hsm_client_x509_create,
        t.hsm_client_x509_destroy,
        t.hsm_client_get_cert,
        t.hsm_client_get_key,
        t.hsm_client_get_common_name,
        t.hsm_client_free_buffer,
{
    HSM_CLIENT_X509_INTERFACE_TAG {
        hsm_client_x509_create: true,
        hsm_client_x509_destroy: true,
        hsm_client_get_cert: true,
        hsm_client_get_key: true,
        hsm_client_get_common_name: true,
        hsm_client_free_buffer: true,
    }
}

/// The crypto interface's capability table.
#[allow(non_camel_case_types)]
#[derive(Clone, Copy, Debug, PartialEq, Eq, Structural)]
pub struct HSM_CLIENT_CRYPTO_INTERFACE_TAG {
    pub hsm_client_crypto_create: bool,
    pub hsm_client_crypto_destroy: bool,
    pub hsm_client_get_random_number_limits: bool,
    pub hsm_client_get_random_number: bool,
    pub hsm_client_create_master_encryption_key: bool,
    pub hsm_client_destroy_master_encryption_key: bool,
    pub hsm_client_create_certificate: bool,
    pub hsm_client_destroy_certificate: bool,
    pub hsm_client_encrypt_data: bool,
    pub hsm_client_decrypt_data: bool,
    pub hsm_client_free_buffer: bool,
}

impl Default for HSM_CLIENT_CRYPTO_INTERFACE_TAG {
    /// The empty table: every entry absent.
    fn default() -> (d: HSM_CLIENT_CRYPTO_INTERFACE_TAG)
        ensures
            !d.hsm_client_crypto_create,
            !d.hsm_client_crypto_destroy,
            !d.hsm_client_get_random_number_limits,
            !d.hsm_client_get_random_number,
            !d.hsm_client_create_master_encryption_key,
            !d.hsm_client_destroy_master_encryption_key,
            !d.hsm_client_create_certificate,
            !d.hsm_client_destroy_certificate,
            !d.hsm_client_encrypt_data,
            !d.hsm_client_decrypt_data,
            !d.hsm_client_free_buffer,
    {
        HSM_CLIENT_CRYPTO_INTERFACE_TAG {
            hsm_client_crypto_create: false,
            hsm_client_crypto_destroy: false,
            hsm_client_get_random_number_limits: false,
            hsm_client_get_random_number: false,
            hsm_client_create_master_encryption_key: false,
            hsm_client_destroy_master_encryption_key: false,
            hsm_client_create_certificate: false,
            hsm_client_destroy_certificate: false,
            hsm_client_encrypt_data: false,
            hsm_client_decrypt_data: false,
            hsm_client_free_buffer: false,
        }
    }
}

/// The table the reference software backend publishes: it implements
/// every crypto operation.
pub fn hsm_client_crypto_interface() -> (t: HSM_CLIENT_CRYPTO_INTERFACE_TAG)
    ensures
        t.hsm_client_crypto_create,
        t.hsm_client_crypto_destroy,
        t.hsm_client_get_random_number_limits,
        t.hsm_client_get_random_number,
        t.hsm_client_create_master_encryption_key,
        t.hsm_client_destroy_master_encryption_key,
        t.hsm_client_create_certificate,
        t.hsm_client_destroy_certificate,
        t.hsm_client_encrypt_data,
        t.hsm_client_decrypt_data,
        t.hsm_client_free_buffer,
{
    HSM_CLIENT_CRYPTO_INTERFACE_TAG {
        hsm_client_crypto_create: true,
        hsm_client_crypto_destroy: true,
        hsm_client_get_random_number_limits: true,
        hsm_client_get_random_number: true,
        hsm_client_create_master_encryption_key: true,
        hsm_client_destroy_master_encryption_key: true,
        hsm_client_create_certificate: true,
        hsm_client_destroy_certificate: true,
        hsm_client_encrypt_data: true,
        hsm_client_decrypt_data: true,
        hsm_client_free_buffer: true,
    }
}

} // verus!
