use vstd::prelude::*;

use crate::buffer::clone_bytes;
use crate::buffer::sized_read;
use crate::errors::HsmError;

verus! {

/// The kind of certificate a properties object asks for.
#[derive(Clone, Copy, Debug, PartialEq, Eq, Structural)]
pub enum CertificateType {
    Unknown,
    Client,
    Server,
    Ca,
}

/// The longest name, alias, or issuer alias a properties object accepts,
/// in bytes. Longer values are refused with `InvalidArgument`.
pub const MAX_NAME_BYTES: usize = 255;

/// The certificate-properties object: a mutable, single-owner builder
/// holding the issuance parameters that the crypto interface's
/// create-certificate operation consumes read-only.
///
/// It is created empty, filled through the setters, and destroyed
/// explicitly by its creator after issuance — never by the certificate
/// handle it helped create.
#[allow(non_camel_case_types)]
pub struct HSM_CERTIFICATE_PROPS_TAG {
    validity_mins: u64,
    common_name: Vec<u8>,
    cert_type: CertificateType,
    issuer_alias: Vec<u8>,
    alias: Vec<u8>,
}

/// The mathematical value of a properties object.
pub ghost struct PropsV {
    pub validity_mins: u64,
    pub common_name: Seq<u8>,
    pub cert_type: CertificateType,
    pub issuer_alias: Seq<u8>,
    pub alias: Seq<u8>,
}

impl View for HSM_CERTIFICATE_PROPS_TAG {
    type V = PropsV;

    closed spec fn view(&self) -> PropsV {
        PropsV {
            validity_mins: self.validity_mins,
            common_name: self.common_name@,
            cert_type: self.cert_type,
            issuer_alias: self.issuer_alias@,
            alias: self.alias@,
        }
    }
}

impl HSM_CERTIFICATE_PROPS_TAG {
    /// Borrows the common name.
    pub fn common_name_ref(&self) -> (r: &Vec<u8>)
        ensures
            r@ == self@.common_name,
    {
        &self.common_name
    }

    /// Borrows the issuer alias.
    pub fn issuer_alias_ref(&self) -> (r: &Vec<u8>)
        ensures
            r@ == self@.issuer_alias,
    {
        &self.issuer_alias
    }

    /// Borrows the alias.
    pub fn alias_ref(&self) -> (r: &Vec<u8>)
        ensures
            r@ == self@.alias,
    {
        &self.alias
    }
}

/// Creates an empty properties object: every field starts unset.
pub fn create_certificate_props() -> (p: HSM_CERTIFICATE_PROPS_TAG)
    ensures
        p@ == (PropsV {
            validity_mins: 0u64,
            common_name: Seq::<u8>::empty(),
            cert_type: CertificateType::Unknown,
            issuer_alias: Seq::<u8>::empty(),
            alias: Seq::<u8>::empty(),
        }),
{
    HSM_CERTIFICATE_PROPS_TAG {
        validity_mins: 0,
        common_name: Vec::new(),
        cert_type: CertificateType::Unknown,
        issuer_alias: Vec::new(),
        alias: Vec::new(),
    }
}

/// Consumes and drops a properties object. The creator calls this once
/// after issuance; issuance itself only reads the object.
pub fn destroy_certificate_props(p: HSM_CERTIFICATE_PROPS_TAG) {
    let _dropped = p;
}

/// Sets the validity period in minutes. Every value is accepted.
pub fn set_validity_in_mins(p: &mut HSM_CERTIFICATE_PROPS_TAG, validity_mins: u64) -> (r: Result<
    (),
    HsmError,
>)
    ensures
        r is Ok,
        final(p)@ == (PropsV { validity_mins, ..old(p)@ }),
{
    p.validity_mins = validity_mins;
    Result::Ok(())
}

/// Reads the validity period in minutes.
pub fn get_validity_in_mins(p: &HSM_CERTIFICATE_PROPS_TAG) -> (r: u64)
    ensures
        r == p@.validity_mins,
{
    p.validity_mins
}

/// Sets the common name; refuses one longer than `MAX_NAME_BYTES`.
pub fn set_common_name(p: &mut HSM_CERTIFICATE_PROPS_TAG, common_name: &Vec<u8>) -> (r: Result<
    (),
    HsmError,
>)
    ensures
        common_name@.len() <= MAX_NAME_BYTES ==> r is Ok && final(p)@ == (PropsV {
            common_name: common_name@,
            ..old(p)@
        }),
        common_name@.len() > MAX_NAME_BYTES ==> r == Result::<(), HsmError>::Err(
            HsmError::InvalidArgument,
        ) && final(p)@ == old(p)@,
{
    if common_name.len() > MAX_NAME_BYTES {
        return Result::Err(HsmError::InvalidArgument);
    }
    p.common_name = clone_bytes(common_name);
    Result::Ok(())
}

/// Reads the common name into a buffer of `cap` bytes, as `sized_read`
/// says: the exact stored value, or `BufferTooSmall` with the required
/// size.
pub fn get_common_name(p: &HSM_CERTIFICATE_PROPS_TAG, cap: usize) -> (r: Result<Vec<u8>, HsmError>)
    ensures
        r is Ok <==> sized_read(p@.common_name, cap as nat) is Ok,
        r is Ok ==> r->Ok_0@ == p@.common_name,
        r is Err ==> Result::<Seq<u8>, HsmError>::Err(r->Err_0) == sized_read(
            p@.common_name,
            cap as nat,
        ),
{
    if p.common_name.len() <= cap {
        Result::Ok(clone_bytes(&p.common_name))
    } else {
        Result::Err(HsmError::BufferTooSmall { required: p.common_name.len() })
    }
}

/// Sets the certificate type. Every variant is accepted.
pub fn set_certificate_type(p: &mut HSM_CERTIFICATE_PROPS_TAG, cert_type: CertificateType) -> (r:
    Result<(), HsmError>)
    ensures
        r is Ok,
        final(p)@ == (PropsV { cert_type, ..old(p)@ }),
{
    p.cert_type = cert_type;
    Result::Ok(())
}

/// Reads the certificate type.
pub fn get_certificate_type(p: &HSM_CERTIFICATE_PROPS_TAG) -> (r: CertificateType)
    ensures
        r == p@.cert_type,
{
    p.cert_type
}

/// Sets the issuer alias; refuses one longer than `MAX_NAME_BYTES`.
pub fn set_issuer_alias(p: &mut HSM_CERTIFICATE_PROPS_TAG, issuer_alias: &Vec<u8>) -> (r: Result<
    (),
    HsmError,
>)
    ensures
        issuer_alias@.len() <= MAX_NAME_BYTES ==> r is Ok && final(p)@ == (PropsV {
            issuer_alias: issuer_alias@,
            ..old(p)@
        }),
        issuer_alias@.len() > MAX_NAME_BYTES ==> r == Result::<(), HsmError>::Err(
            HsmError::InvalidArgument,
        ) && final(p)@ == old(p)@,
{
    if issuer_alias.len() > MAX_NAME_BYTES {
        return Result::Err(HsmError::InvalidArgument);
    }
    p.issuer_alias = clone_bytes(issuer_alias);
    Result::Ok(())
}

/// Reads the issuer alias into a buffer of `cap` bytes.
pub fn get_issuer_alias(p: &HSM_CERTIFICATE_PROPS_TAG, cap: usize) -> (r: Result<Vec<u8>, HsmError>)
    ensures
        r is Ok <==> sized_read(p@.issuer_alias, cap as nat) is Ok,
        r is Ok ==> r->Ok_0@ == p@.issuer_alias,
        r is Err ==> Result::<Seq<u8>, HsmError>::Err(r->Err_0) == sized_read(
            p@.issuer_alias,
            cap as nat,
        ),
{
    if p.issuer_alias.len() <= cap {
        Result::Ok(clone_bytes(&p.issuer_alias))
    } else {
        Result::Err(HsmError::BufferTooSmall { required: p.issuer_alias.len() })
    }
}

/// Sets the alias; refuses one longer than `MAX_NAME_BYTES`.
pub fn set_alias(p: &mut HSM_CERTIFICATE_PROPS_TAG, alias: &Vec<u8>) -> (r: Result<(), HsmError>)
    ensures
        alias@.len() <= MAX_NAME_BYTES ==> r is Ok && final(p)@ == (PropsV {
            alias: alias@,
            ..old(p)@
        }),
        alias@.len() > MAX_NAME_BYTES ==> r == Result::<(), HsmError>::Err(
            HsmError::InvalidArgument,
        ) && final(p)@ == old(p)@,
{
    if alias.len() > MAX_NAME_BYTES {
        return Result::Err(HsmError::InvalidArgument);
    }
    p.alias = clone_bytes(alias);
    Result::Ok(())
}

/// Reads the alias into a buffer of `cap` bytes.
pub fn get_alias(p: &HSM_CERTIFICATE_PROPS_TAG, cap: usize) -> (r: Result<Vec<u8>, HsmError>)
    ensures
        r is Ok <==> sized_read(p@.alias, cap as nat) is Ok,
        r is Ok ==> r->Ok_0@ == p@.alias,
        r is Err ==> Result::<Seq<u8>, HsmError>::Err(r->Err_0) == sized_read(p@.alias, cap as nat),
{
    if p.alias.len() <= cap {
        Result::Ok(clone_bytes(&p.alias))
    } else {
        Result::Err(HsmError::BufferTooSmall { required: p.alias.len() })
    }
}

/// Round-trip law for the properties protocol: once a name-valued field
/// has been set to `name` (so the stored value is exactly `name`, as the
/// setters ensure), reading it back with capacity `cap` yields exactly
/// `name` when `cap` suffices, and otherwise `BufferTooSmall` carrying
/// the stored length as the required size — never a truncated value.
pub proof fn lemma_set_then_get_roundtrip(p1: PropsV, name: Seq<u8>, cap: nat)
    requires
        name.len() <= MAX_NAME_BYTES,
        p1.common_name == name,
    ensures
        cap >= name.len() ==> sized_read(p1.common_name, cap) == Result::<Seq<u8>, HsmError>::Ok(
            name,
        ),
        cap < name.len() ==> sized_read(p1.common_name, cap) == Result::<Seq<u8>, HsmError>::Err(
            HsmError::BufferTooSmall { required: name.len() as usize },
        ),
{
}

} // verus!
