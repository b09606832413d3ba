use hsm_client::errors::HsmError;
use hsm_client::props::create_certificate_props;
use hsm_client::props::destroy_certificate_props;
use hsm_client::props::get_alias;
use hsm_client::props::get_certificate_type;
use hsm_client::props::get_common_name;
use hsm_client::props::get_issuer_alias;
use hsm_client::props::get_validity_in_mins;
use hsm_client::props::set_alias;
use hsm_client::props::set_certificate_type;
use hsm_client::props::set_common_name;
use hsm_client::props::set_issuer_alias;
use hsm_client::props::set_validity_in_mins;
use hsm_client::props::CertificateType;
use hsm_client::props::MAX_NAME_BYTES;

#[test]
fn fresh_props_start_empty() {
    let p = create_certificate_props();
    assert_eq!(get_validity_in_mins(&p), 0);
    assert_eq!(get_certificate_type(&p), CertificateType::Unknown);
    assert_eq!(get_common_name(&p, 0).unwrap(), Vec::<u8>::new());
    assert_eq!(get_issuer_alias(&p, 0).unwrap(), Vec::<u8>::new());
    assert_eq!(get_alias(&p, 0).unwrap(), Vec::<u8>::new());
    destroy_certificate_props(p);
}

#[test]
fn set_then_get_returns_exact_values() {
    let mut p = create_certificate_props();
    assert!(set_validity_in_mins(&mut p, 120).is_ok());
    assert!(set_common_name(&mut p, &b"edgeAgent".to_vec()).is_ok());
    assert!(set_certificate_type(&mut p, CertificateType::Ca).is_ok());
    assert!(set_issuer_alias(&mut p, &b"device-ca".to_vec()).is_ok());
    assert!(set_alias(&mut p, &b"agent-ca-1".to_vec()).is_ok());
    assert_eq!(get_validity_in_mins(&p), 120);
    assert_eq!(get_common_name(&p, 64).unwrap(), b"edgeAgent".to_vec());
    assert_eq!(get_certificate_type(&p), CertificateType::Ca);
    assert_eq!(get_issuer_alias(&p, 64).unwrap(), b"device-ca".to_vec());
    assert_eq!(get_alias(&p, 64).unwrap(), b"agent-ca-1".to_vec());
    destroy_certificate_props(p);
}

#[test]
fn get_with_exact_capacity_succeeds() {
    let mut p = create_certificate_props();
    assert!(set_common_name(&mut p, &b"edgeAgent".to_vec()).is_ok());
    assert_eq!(get_common_name(&p, 9).unwrap(), b"edgeAgent".to_vec());
}

#[test]
fn get_with_small_capacity_reports_required_size() {
    let mut p = create_certificate_props();
    assert!(set_common_name(&mut p, &b"edgeAgent".to_vec()).is_ok());
    assert_eq!(
        get_common_name(&p, 4),
        Err(HsmError::BufferTooSmall { required: 9 })
    );
    assert!(set_alias(&mut p, &b"agent-ca-1".to_vec()).is_ok());
    assert_eq!(
        get_alias(&p, 0),
        Err(HsmError::BufferTooSmall { required: 10 })
    );
    assert!(set_issuer_alias(&mut p, &b"device-ca".to_vec()).is_ok());
    assert_eq!(
        get_issuer_alias(&p, 8),
        Err(HsmError::BufferTooSmall { required: 9 })
    );
}

#[test]
fn oversized_value_is_refused_and_state_kept() {
    let mut p = create_certificate_props();
    assert!(set_common_name(&mut p, &b"edgeAgent".to_vec()).is_ok());
    let long = vec![0x61u8; MAX_NAME_BYTES + 1];
    assert_eq!(
        set_common_name(&mut p, &long),
        Err(HsmError::InvalidArgument)
    );
    assert_eq!(
        set_issuer_alias(&mut p, &long),
        Err(HsmError::InvalidArgument)
    );
    assert_eq!(set_alias(&mut p, &long), Err(HsmError::InvalidArgument));
    assert_eq!(get_common_name(&p, 64).unwrap(), b"edgeAgent".to_vec());
}

#[test]
fn longest_accepted_value_round_trips() {
    let mut p = create_certificate_props();
    let widest = vec![0x7Au8; MAX_NAME_BYTES];
    assert!(set_common_name(&mut p, &widest).is_ok());
    assert_eq!(get_common_name(&p, MAX_NAME_BYTES).unwrap(), widest);
}
