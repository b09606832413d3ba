use hsm_client::cert::CryptoEncoding;
use hsm_client::cert::PrivateKeyType;
use hsm_client::crypto::CryptoClient;
use hsm_client::crypto::DestroyByIdStatus;
use hsm_client::errors::HsmError;
use hsm_client::props::create_certificate_props;
use hsm_client::props::destroy_certificate_props;
use hsm_client::props::set_alias;
use hsm_client::props::set_certificate_type;
use hsm_client::props::set_common_name;
use hsm_client::props::set_issuer_alias;
use hsm_client::props::set_validity_in_mins;
use hsm_client::props::CertificateType;

fn agent_ca_props() -> hsm_client::props::HSM_CERTIFICATE_PROPS_TAG {
    let mut p = create_certificate_props();
    set_validity_in_mins(&mut p, 120).unwrap();
    set_common_name(&mut p, &b"edgeAgent".to_vec()).unwrap();
    set_certificate_type(&mut p, CertificateType::Ca).unwrap();
    set_issuer_alias(&mut p, &b"device-ca".to_vec()).unwrap();
    set_alias(&mut p, &b"agent-ca-1".to_vec()).unwrap();
    p
}

fn seeded_backend() -> CryptoClient {
    let mut c = CryptoClient::create(false);
    c.register_issuer(&b"device-ca".to_vec()).unwrap();
    c
}

#[test]
fn issue_query_destroy_scenario() {
    let mut c = seeded_backend();
    let p = agent_ca_props();
    let handle = c.create_certificate(&p).unwrap();
    destroy_certificate_props(p);

    let (buf, enc) = c.get_certificate(handle).unwrap();
    assert_eq!(enc, CryptoEncoding::Pem);
    assert!(buf.size() > 0);
    let bytes = buf.bytes().clone();
    assert!(bytes.starts_with(b"-----BEGIN CERTIFICATE-----\n"));
    assert!(bytes.ends_with(b"\n-----END CERTIFICATE-----\n"));
    c.free_buffer(buf);

    assert!(c.destroy_certificate(handle).is_ok());
    match c.get_certificate(handle) {
        Err(HsmError::InvalidHandle) => {},
        other => panic!("stale handle was answered with {:?}", other.map(|_| ())),
    }
    assert_eq!(c.allocations(), c.releases());
}

#[test]
fn unknown_issuer_is_refused_without_a_leak() {
    let mut c = CryptoClient::create(false);
    c.register_issuer(&b"device-ca".to_vec()).unwrap();
    let mut p = agent_ca_props();
    set_issuer_alias(&mut p, &b"nonexistent".to_vec()).unwrap();
    assert_eq!(c.create_certificate(&p), Err(HsmError::UnknownIssuer));
    assert_eq!(c.allocations(), 0);
    assert_eq!(c.releases(), 0);
    assert_eq!(
        c.destroy_certificate_by_id(&b"agent-ca-1".to_vec()),
        DestroyByIdStatus::NotFound
    );
}

#[test]
fn empty_or_taken_alias_is_refused() {
    let mut c = seeded_backend();
    let mut p = agent_ca_props();
    set_alias(&mut p, &b"".to_vec()).unwrap();
    assert_eq!(c.create_certificate(&p), Err(HsmError::InvalidArgument));
    set_alias(&mut p, &b"agent-ca-1".to_vec()).unwrap();
    c.create_certificate(&p).unwrap();
    assert_eq!(c.create_certificate(&p), Err(HsmError::InvalidArgument));
}

#[test]
fn destroy_by_id_twice_is_a_notfound_noop() {
    let mut c = seeded_backend();
    let p = agent_ca_props();
    c.create_certificate(&p).unwrap();
    assert_eq!(
        c.destroy_certificate_by_id(&b"agent-ca-1".to_vec()),
        DestroyByIdStatus::Destroyed
    );
    assert_eq!(
        c.destroy_certificate_by_id(&b"agent-ca-1".to_vec()),
        DestroyByIdStatus::NotFound
    );
    assert_eq!(
        c.destroy_certificate_by_id(&b"never-issued".to_vec()),
        DestroyByIdStatus::NotFound
    );
}

#[test]
fn destroying_a_stale_handle_reports_invalid_handle() {
    let mut c = seeded_backend();
    let p = agent_ca_props();
    let handle = c.create_certificate(&p).unwrap();
    assert!(c.destroy_certificate(handle).is_ok());
    assert_eq!(c.destroy_certificate(handle), Err(HsmError::InvalidHandle));
}

#[test]
fn random_numbers_respect_declared_limits() {
    let mut c = CryptoClient::create(false);
    let (min, max) = c.get_random_number_limits();
    assert!(min <= max);
    for _ in 0..1000 {
        let v = c.get_random_number();
        assert!(min <= v && v <= max);
    }
}

#[test]
fn master_key_lifecycle_guards() {
    let mut c = CryptoClient::create(false);
    assert_eq!(
        c.destroy_master_encryption_key(),
        Err(HsmError::NotProvisioned)
    );
    assert!(c.create_master_encryption_key().is_ok());
    assert_eq!(
        c.create_master_encryption_key(),
        Err(HsmError::AlreadyProvisioned)
    );
    assert!(c.destroy_master_encryption_key().is_ok());
    assert_eq!(
        c.destroy_master_encryption_key(),
        Err(HsmError::NotProvisioned)
    );
}

#[test]
fn encrypt_then_decrypt_restores_plaintext() {
    let mut c = CryptoClient::create(false);
    c.create_master_encryption_key().unwrap();
    let client_id = b"edgeHub".to_vec();
    let plaintext = b"telemetry batch 0017".to_vec();
    let passphrase = Some(b"door hinge oatmeal".to_vec());
    let iv = Some(vec![7u8; 16]);
    let sealed = c
        .encrypt_data(&client_id, &plaintext, &passphrase, &iv)
        .unwrap();
    let ciphertext = sealed.into_bytes();
    assert_ne!(ciphertext, plaintext);
    let opened = c
        .decrypt_data(&client_id, &ciphertext, &passphrase, &iv)
        .unwrap();
    assert_eq!(opened.into_bytes(), plaintext);
}

#[test]
fn wrong_passphrase_does_not_restore_the_plaintext() {
    let mut c = CryptoClient::create(false);
    c.create_master_encryption_key().unwrap();
    let client_id = b"edgeHub".to_vec();
    let plaintext = b"telemetry batch 0017".to_vec();
    let iv = Some(vec![7u8; 16]);
    let sealed = c
        .encrypt_data(
            &client_id,
            &plaintext,
            &Some(b"door hinge oatmeal".to_vec()),
            &iv,
        )
        .unwrap();
    let ciphertext = sealed.into_bytes();
    let opened = c
        .decrypt_data(
            &client_id,
            &ciphertext,
            &Some(b"wrong passphrase".to_vec()),
            &iv,
        )
        .unwrap();
    assert_ne!(opened.into_bytes(), plaintext);
}

#[test]
fn encrypt_without_a_master_key_is_not_provisioned() {
    let mut c = CryptoClient::create(false);
    let r = c.encrypt_data(&b"edgeHub".to_vec(), &b"x".to_vec(), &None, &None);
    assert!(matches!(r, Err(HsmError::NotProvisioned)));
    let r = c.decrypt_data(&b"edgeHub".to_vec(), &b"x".to_vec(), &None, &None);
    assert!(matches!(r, Err(HsmError::NotProvisioned)));
}

#[test]
fn empty_client_id_is_refused() {
    let mut c = CryptoClient::create(false);
    c.create_master_encryption_key().unwrap();
    let r = c.encrypt_data(&b"".to_vec(), &b"x".to_vec(), &None, &None);
    assert!(matches!(r, Err(HsmError::InvalidArgument)));
}

#[test]
fn non_exportable_private_key_is_a_reference() {
    let mut c = seeded_backend();
    let p = agent_ca_props();
    let handle = c.create_certificate(&p).unwrap();
    let (buf, key_type, enc) = c.get_private_key(handle).unwrap();
    assert_eq!(key_type, PrivateKeyType::Reference);
    assert_eq!(enc, CryptoEncoding::Ascii);
    let mut expected = b"agent-ca-1".to_vec();
    expected.push(0);
    let bytes = buf.into_bytes();
    assert_eq!(bytes, expected);
}

#[test]
fn exportable_private_key_is_a_payload() {
    let mut c = CryptoClient::create(true);
    c.register_issuer(&b"device-ca".to_vec()).unwrap();
    let p = agent_ca_props();
    let handle = c.create_certificate(&p).unwrap();
    let (buf, key_type, enc) = c.get_private_key(handle).unwrap();
    assert_eq!(key_type, PrivateKeyType::Payload);
    assert_eq!(enc, CryptoEncoding::Pem);
    assert_eq!(buf.into_bytes(), b"KEY:agent-ca-1".to_vec());
}

#[test]
fn chain_and_public_key_accessors() {
    let mut c = seeded_backend();
    let p = agent_ca_props();
    let handle = c.create_certificate(&p).unwrap();

    let (chain, enc) = c.get_certificate_chain(handle).unwrap();
    assert_eq!(enc, CryptoEncoding::Pem);
    let chain_bytes = chain.into_bytes();
    let leaf = b"-----BEGIN CERTIFICATE-----\nedgeAgent\n-----END CERTIFICATE-----\n".to_vec();
    let issuer = b"-----BEGIN CERTIFICATE-----\ndevice-ca\n-----END CERTIFICATE-----\n".to_vec();
    let mut expected = leaf.clone();
    expected.extend_from_slice(&issuer);
    assert_eq!(chain_bytes, expected);

    let (key, enc) = c.get_public_key(handle).unwrap();
    assert_eq!(enc, CryptoEncoding::Der);
    assert_eq!(key.into_bytes(), b"PUB:agent-ca-1".to_vec());
}

#[test]
fn every_produced_buffer_is_released_once() {
    let mut c = seeded_backend();
    let p = agent_ca_props();
    let handle = c.create_certificate(&p).unwrap();
    destroy_certificate_props(p);
    c.create_master_encryption_key().unwrap();

    let (b1, _) = c.get_certificate(handle).unwrap();
    let (b2, _) = c.get_certificate_chain(handle).unwrap();
    let (b3, _) = c.get_public_key(handle).unwrap();
    let (b4, _, _) = c.get_private_key(handle).unwrap();
    let b5 = c
        .encrypt_data(&b"edgeHub".to_vec(), &b"payload".to_vec(), &None, &None)
        .unwrap();
    assert_eq!(c.allocations(), 5);
    assert_eq!(c.releases(), 0);

    c.free_buffer(b1);
    c.free_buffer(b2);
    c.free_buffer(b3);
    c.free_buffer(b4);
    c.free_buffer(b5);
    assert_eq!(c.allocations(), 5);
    assert_eq!(c.releases(), 5);

    assert!(c.destroy_certificate(handle).is_ok());
    assert_eq!(c.allocations(), c.releases());
    c.destroy();
}

#[test]
fn failed_operations_allocate_nothing() {
    let mut c = CryptoClient::create(false);
    let stale = match c.create_certificate(&agent_ca_props()) {
        Err(_) => hsm_client::crypto::CertHandle { id: 9 },
        Ok(h) => h,
    };
    assert!(c.get_certificate(stale).is_err());
    assert!(c.get_certificate_chain(stale).is_err());
    assert!(c.get_public_key(stale).is_err());
    assert!(c.get_private_key(stale).is_err());
    assert!(c
        .encrypt_data(&b"edgeHub".to_vec(), &b"x".to_vec(), &None, &None)
        .is_err());
    assert_eq!(c.allocations(), 0);
    assert_eq!(c.releases(), 0);
}

#[test]
fn zero_length_plaintext_encrypts_to_an_empty_present_buffer() {
    let mut c = CryptoClient::create(false);
    c.create_master_encryption_key().unwrap();
    let sealed = c
        .encrypt_data(&b"edgeHub".to_vec(), &b"".to_vec(), &None, &None)
        .unwrap();
    assert_eq!(sealed.size(), 0);
    assert_eq!(sealed.into_bytes(), Vec::<u8>::new());
}
