use hsm_client::errors::HsmError;
use hsm_client::tpm::TpmClient;
use hsm_client::tpm::DIGEST_LEN;

#[test]
fn identity_operations_need_provisioning() {
    let mut t = TpmClient::create();
    assert!(matches!(
        t.sign_with_identity(&b"data".to_vec()),
        Err(HsmError::NotProvisioned)
    ));
    assert!(matches!(
        t.derive_and_sign_with_identity(&b"data".to_vec(), &b"module-1".to_vec()),
        Err(HsmError::NotProvisioned)
    ));
    assert_eq!(
        t.derive_and_sign_required_size(&b"data".to_vec(), &b"module-1".to_vec()),
        Err(HsmError::NotProvisioned)
    );
    assert_eq!(t.allocations(), 0);
}

#[test]
fn empty_identity_key_is_refused() {
    let mut t = TpmClient::create();
    assert_eq!(
        t.activate_identity_key(&b"".to_vec()),
        Err(HsmError::InvalidArgument)
    );
}

#[test]
fn signing_is_deterministic_and_sized() {
    let mut t = TpmClient::create();
    t.activate_identity_key(&b"identity-key-bytes".to_vec())
        .unwrap();
    let first = t.sign_with_identity(&b"payload".to_vec()).unwrap();
    let second = t.sign_with_identity(&b"payload".to_vec()).unwrap();
    let a = first.into_bytes();
    let b = second.into_bytes();
    assert_eq!(a, b);
    assert_eq!(a.len(), DIGEST_LEN);
    let other = t.sign_with_identity(&b"other payload".to_vec()).unwrap();
    assert_ne!(other.into_bytes(), a);
}

#[test]
fn sizing_query_matches_real_call() {
    let mut t = TpmClient::create();
    t.activate_identity_key(&b"identity-key-bytes".to_vec())
        .unwrap();
    let data = b"message to sign".to_vec();
    let identity = b"module-7".to_vec();
    let required = t.derive_and_sign_required_size(&data, &identity).unwrap();
    let digest = t.derive_and_sign_with_identity(&data, &identity).unwrap();
    assert_eq!(digest.size(), required);
    t.free_buffer(digest);
    assert_eq!(t.allocations(), t.releases());
}

#[test]
fn sizing_query_has_no_side_effect() {
    let mut t = TpmClient::create();
    t.activate_identity_key(&b"identity-key-bytes".to_vec())
        .unwrap();
    let data = b"message".to_vec();
    let identity = b"module-7".to_vec();
    t.derive_and_sign_required_size(&data, &identity).unwrap();
    assert_eq!(t.allocations(), 0);
    let first = t
        .derive_and_sign_with_identity(&data, &identity)
        .unwrap()
        .into_bytes();
    t.derive_and_sign_required_size(&data, &identity).unwrap();
    let second = t
        .derive_and_sign_with_identity(&data, &identity)
        .unwrap()
        .into_bytes();
    assert_eq!(first, second);
}

#[test]
fn root_keys_are_stable_and_distinct() {
    let mut t = TpmClient::create();
    let ek = t.get_ek().unwrap().into_bytes();
    let ek_again = t.get_ek().unwrap().into_bytes();
    let srk = t.get_srk().unwrap().into_bytes();
    assert_eq!(ek.len(), DIGEST_LEN);
    assert_eq!(srk.len(), DIGEST_LEN);
    assert_eq!(ek, ek_again);
    assert_ne!(ek, srk);
}

#[test]
fn tpm_buffers_balance_after_release() {
    let mut t = TpmClient::create();
    t.activate_identity_key(&b"identity-key-bytes".to_vec())
        .unwrap();
    let a = t.get_ek().unwrap();
    let b = t.get_srk().unwrap();
    let c = t.sign_with_identity(&b"data".to_vec()).unwrap();
    assert_eq!(t.allocations(), 3);
    t.free_buffer(a);
    t.free_buffer(b);
    t.free_buffer(c);
    assert_eq!(t.allocations(), t.releases());
    t.destroy();
}
