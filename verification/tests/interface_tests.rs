use hsm_client::errors::HsmError;
use hsm_client::interfaces::check_entry;
use hsm_client::interfaces::hsm_client_crypto_interface;
use hsm_client::interfaces::hsm_client_tpm_interface;
use hsm_client::interfaces::hsm_client_x509_interface;
use hsm_client::interfaces::HSM_CLIENT_CRYPTO_INTERFACE_TAG;
use hsm_client::interfaces::HSM_CLIENT_TPM_INTERFACE_TAG;
use hsm_client::interfaces::HSM_CLIENT_X509_INTERFACE_TAG;
use hsm_client::lifecycle::ModuleState;

#[test]
fn default_tables_have_every_entry_absent() {
    let t = HSM_CLIENT_TPM_INTERFACE_TAG::default();
    assert!(!t.hsm_client_tpm_create);
    assert!(!t.hsm_client_sign_with_identity);
    assert!(!t.hsm_client_derive_and_sign_with_identity);
    assert!(!t.hsm_client_free_buffer);

    let x = HSM_CLIENT_X509_INTERFACE_TAG::default();
    assert!(!x.hsm_client_x509_create);
    assert!(!x.hsm_client_get_cert);
    assert!(!x.hsm_client_get_common_name);

    let c = HSM_CLIENT_CRYPTO_INTERFACE_TAG::default();
    assert!(!c.hsm_client_crypto_create);
    assert!(!c.hsm_client_create_certificate);
    assert!(!c.hsm_client_encrypt_data);
    assert!(!c.hsm_client_free_buffer);
}

#[test]
fn reference_backend_publishes_full_tables() {
    let t = hsm_client_tpm_interface();
    assert!(t.hsm_client_tpm_create && t.hsm_client_tpm_destroy);
    assert!(t.hsm_client_activate_identity_key && t.hsm_client_get_ek && t.hsm_client_get_srk);
    assert!(t.hsm_client_sign_with_identity && t.hsm_client_derive_and_sign_with_identity);
    assert!(t.hsm_client_free_buffer);

    let x = hsm_client_x509_interface();
    assert!(x.hsm_client_x509_create && x.hsm_client_x509_destroy);
    assert!(x.hsm_client_get_cert && x.hsm_client_get_key && x.hsm_client_get_common_name);
    assert!(x.hsm_client_free_buffer);

    let c = hsm_client_crypto_interface();
    assert!(c.hsm_client_crypto_create && c.hsm_client_crypto_destroy);
    assert!(c.hsm_client_get_random_number_limits && c.hsm_client_get_random_number);
    assert!(c.hsm_client_create_master_encryption_key);
    assert!(c.hsm_client_destroy_master_encryption_key);
    assert!(c.hsm_client_create_certificate && c.hsm_client_destroy_certificate);
    assert!(c.hsm_client_encrypt_data && c.hsm_client_decrypt_data);
    assert!(c.hsm_client_free_buffer);
}

#[test]
fn absent_entries_are_checked_not_called() {
    let empty = HSM_CLIENT_CRYPTO_INTERFACE_TAG::default();
    assert_eq!(
        check_entry(empty.hsm_client_create_certificate),
        Err(HsmError::NotSupported)
    );
    let full = hsm_client_crypto_interface();
    assert!(check_entry(full.hsm_client_create_certificate).is_ok());
}

#[test]
fn lifecycle_guards_fail_fast() {
    let mut m = ModuleState::new();
    assert_eq!(m.on_create(), Err(HsmError::NotProvisioned));
    assert_eq!(m.deinit(), Err(HsmError::NotProvisioned));
    assert!(m.init().is_ok());
    assert_eq!(m.init(), Err(HsmError::AlreadyProvisioned));
    assert!(m.on_create().is_ok());
    assert_eq!(m.deinit(), Err(HsmError::InvalidArgument));
    assert!(m.on_destroy().is_ok());
    assert_eq!(m.on_destroy(), Err(HsmError::InvalidHandle));
    assert!(m.deinit().is_ok());
    assert_eq!(m.deinit(), Err(HsmError::NotProvisioned));
}

#[test]
fn lifecycle_init_create_destroy_deinit_round_trip() {
    let mut m = ModuleState::new();
    assert!(m.init().is_ok());
    assert!(m.on_create().is_ok());
    assert!(m.on_create().is_ok());
    assert!(m.on_destroy().is_ok());
    assert!(m.on_destroy().is_ok());
    assert!(m.deinit().is_ok());
    assert!(m.init().is_ok());
}
