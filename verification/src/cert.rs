use vstd::prelude::*;

use crate::buffer::clone_bytes;
use crate::props::HSM_CERTIFICATE_PROPS_TAG;
use crate::props::PropsV;

verus! {

/// Encoding tag attached to every buffer a certificate handle hands out.
#[derive(Clone, Copy, Debug, PartialEq, Eq, Structural)]
pub enum CryptoEncoding {
    Ascii,
    Pem,
    Der,
}

/// What the private-key accessor hands out: the raw key bytes
/// (`Payload`), or an opaque backend identifier (`Reference`, ASCII and
/// null-terminated) when the backend keeps key material non-exportable.
#[derive(Clone, Copy, Debug, PartialEq, Eq, Structural)]
pub enum PrivateKeyType {
    Unknown,
    Payload,
    Reference,
}

/// The bytes of `-----BEGIN CERTIFICATE-----` followed by a newline.
pub open spec fn pem_begin() -> Seq<u8> {
    seq![
        45u8, 45u8, 45u8, 45u8, 45u8, 66u8, 69u8, 71u8, 73u8, 78u8, 32u8, 67u8, 69u8, 82u8, 84u8,
        73u8, 70u8, 73u8, 67u8, 65u8, 84u8, 69u8, 45u8, 45u8, 45u8, 45u8, 45u8, 10u8,
    ]
}

/// The bytes of a newline, `-----END CERTIFICATE-----`, and a newline.
pub open spec fn pem_end() -> Seq<u8> {
    seq![
        10u8, 45u8, 45u8, 45u8, 45u8, 45u8, 69u8, 78u8, 68u8, 32u8, 67u8, 69u8, 82u8, 84u8, 73u8,
        70u8, 73u8, 67u8, 65u8, 84u8, 69u8, 45u8, 45u8, 45u8, 45u8, 45u8, 10u8,
    ]
}

/// The bytes of the tag `PUB:` that opens a reference public key.
pub open spec fn pub_tag() -> Seq<u8> {
    seq![80u8, 85u8, 66u8, 58u8]
}

/// The bytes of the tag `KEY:` that opens an exported private key.
pub open spec fn key_tag() -> Seq<u8> {
    seq![75u8, 69u8, 89u8, 58u8]
}

/// The PEM bytes the reference backend issues for a common name.
pub open spec fn cert_pem_of(common_name: Seq<u8>) -> Seq<u8> {
    pem_begin() + common_name + pem_end()
}

/// The chain the reference backend attaches: the leaf's PEM followed by
/// the issuer's PEM.
pub open spec fn chain_pem_of(common_name: Seq<u8>, issuer_alias: Seq<u8>) -> Seq<u8> {
    cert_pem_of(common_name) + cert_pem_of(issuer_alias)
}

/// The public key bytes the reference backend derives for an alias.
pub open spec fn public_key_of(alias: Seq<u8>) -> Seq<u8> {
    pub_tag() + alias
}

/// The exported private key bytes for an alias.
pub open spec fn payload_key_of(alias: Seq<u8>) -> Seq<u8> {
    key_tag() + alias
}

/// The non-exportable private key reference for an alias: the alias
/// itself, null-terminated.
pub open spec fn reference_key_of(alias: Seq<u8>) -> Seq<u8> {
    alias + seq![0u8]
}

/// The mathematical value of one issued certificate's crypto assets.
pub ghost struct CertV {
    pub alias: Seq<u8>,
    pub cert_pem: Seq<u8>,
    pub chain_pem: Seq<u8>,
    pub public_key: Seq<u8>,
    pub private_key: Seq<u8>,
    pub key_type: PrivateKeyType,
}

/// What issuing a certificate from the given properties produces. The
/// private key stays inside the backend unless `exportable` is set: a
/// non-exportable key is handed out only as a null-terminated reference.
pub open spec fn cert_v_of(p: PropsV, exportable: bool) -> CertV {
    CertV {
        alias: p.alias,
        cert_pem: cert_pem_of(p.common_name),
        chain_pem: chain_pem_of(p.common_name, p.issuer_alias),
        public_key: public_key_of(p.alias),
        private_key: if exportable {
            payload_key_of(p.alias)
        } else {
            reference_key_of(p.alias)
        },
        key_type: if exportable {
            PrivateKeyType::Payload
        } else {
            PrivateKeyType::Reference
        },
    }
}

/// One issued certificate's crypto assets, read-only after creation.
/// Values of this type live inside the crypto backend's registry;
/// callers reach them through a certificate handle, and destroying the
/// certificate removes the registry entry, so a stale handle fails with
/// `InvalidHandle` instead of reaching freed assets.
#[allow(non_camel_case_types)]
pub struct HSM_CERTIFICATE_TAG {
    alias: Vec<u8>,
    cert_pem: Vec<u8>,
    chain_pem: Vec<u8>,
    public_key: Vec<u8>,
    private_key: Vec<u8>,
    key_type: PrivateKeyType,
}

impl View for HSM_CERTIFICATE_TAG {
    type V = CertV;

    closed spec fn view(&self) -> CertV {
        CertV {
            alias: self.alias@,
            cert_pem: self.cert_pem@,
            chain_pem: self.chain_pem@,
            public_key: self.public_key@,
            private_key: self.private_key@,
            key_type: self.key_type,
        }
    }
}

/// Appends all of `src` to `dst`.
pub fn push_all(dst: &mut Vec<u8>, src: &Vec<u8>)
    ensures
        final(dst)@ == old(dst)@ + src@,
{
    let mut i: usize = 0;
    while i < src.len()
        invariant
            i <= src@.len(),
            dst@ == old(dst)@ + src@.take(i as int),
        decreases src@.len() - i,
    {
        proof {
            assert((old(dst)@ + src@.take(i as int)).push(src@[i as int]) =~= old(dst)@ + src@.take(
                i + 1,
            ));
        }
        dst.push(src[i]);
        i = i + 1;
    }
    proof {
        assert(old(dst)@ + src@.take(src@.len() as int) =~= old(dst)@ + src@);
    }
}

/// Builds the PEM opening line.
pub fn pem_begin_bytes() -> (v: Vec<u8>)
    ensures
        v@ == pem_begin(),
{
    let mut v: Vec<u8> = Vec::new();
    v.push(45);
    v.push(45);
    v.push(45);
    v.push(45);
    v.push(45);
    v.push(66);
    v.push(69);
    v.push(71);
    v.push(73);
    v.push(78);
    v.push(32);
    v.push(67);
    v.push(69);
    v.push(82);
    v.push(84);
    v.push(73);
    v.push(70);
    v.push(73);
    v.push(67);
    v.push(65);
    v.push(84);
    v.push(69);
    v.push(45);
    v.push(45);
    v.push(45);
    v.push(45);
    v.push(45);
    v.push(10);
    proof {
        assert(v@ =~= pem_begin());
    }
    v
}

/// Builds the PEM closing line.
pub fn pem_end_bytes() -> (v: Vec<u8>)
    ensures
        v@ == pem_end(),
{
    let mut v: Vec<u8> = Vec::new();
    v.push(10);
    v.push(45);
    v.push(45);
    v.push(45);
    v.push(45);
    v.push(45);
    v.push(69);
    v.push(78);
    v.push(68);
    v.push(32);
    v.push(67);
    v.push(69);
    v.push(82);
    v.push(84);
    v.push(73);
    v.push(70);
    v.push(73);
    v.push(67);
    v.push(65);
    v.push(84);
    v.push(69);
    v.push(45);
    v.push(45);
    v.push(45);
    v.push(45);
    v.push(45);
    v.push(10);
    proof {
        assert(v@ =~= pem_end());
    }
    v
}

/// Builds the PEM bytes issued for a common name.
pub fn cert_pem_bytes(common_name: &Vec<u8>) -> (v: Vec<u8>)
    ensures
        v@ == cert_pem_of(common_name@),
{
    let mut v = pem_begin_bytes();
    push_all(&mut v, common_name);
    let end = pem_end_bytes();
    push_all(&mut v, &end);
    proof {
        assert(v@ =~= cert_pem_of(common_name@));
    }
    v
}

/// Builds the public-key tag bytes.
pub fn pub_tag_bytes() -> (v: Vec<u8>)
    ensures
        v@ == pub_tag(),
{
    let mut v: Vec<u8> = Vec::new();
    v.push(80);
    v.push(85);
    v.push(66);
    v.push(58);
    proof {
        assert(v@ =~= pub_tag());
    }
    v
}

/// Builds the exported-key tag bytes.
pub fn key_tag_bytes() -> (v: Vec<u8>)
    ensures
        v@ == key_tag(),
{
    let mut v: Vec<u8> = Vec::new();
    v.push(75);
    v.push(69);
    v.push(89);
    v.push(58);
    proof {
        assert(v@ =~= key_tag());
    }
    v
}

impl HSM_CERTIFICATE_TAG {
    /// Issues the certificate record the given properties describe.
    pub fn issue(props: &HSM_CERTIFICATE_PROPS_TAG, exportable: bool) -> (c: HSM_CERTIFICATE_TAG)
        ensures
            c@ == cert_v_of(props@, exportable),
    {
        let alias = clone_bytes(props.alias_ref());
        let cert_pem = cert_pem_bytes(props.common_name_ref());
        let mut chain_pem = cert_pem_bytes(props.common_name_ref());
        let issuer_pem = cert_pem_bytes(props.issuer_alias_ref());
        push_all(&mut chain_pem, &issuer_pem);
        let mut public_key = pub_tag_bytes();
        push_all(&mut public_key, props.alias_ref());
        let private_key: Vec<u8>;
        let key_type: PrivateKeyType;
        if exportable {
            let mut k = key_tag_bytes();
            push_all(&mut k, props.alias_ref());
            private_key = k;
            key_type = PrivateKeyType::Payload;
        } else {
            let mut k = clone_bytes(props.alias_ref());
            k.push(0);
            proof {
                assert(k@ =~= reference_key_of(props@.alias));
            }
            private_key = k;
            key_type = PrivateKeyType::Reference;
        }
        let c = HSM_CERTIFICATE_TAG { alias, cert_pem, chain_pem, public_key, private_key, key_type };
        proof {
            assert(c@ == cert_v_of(props@, exportable));
        }
        c
    }

    /// The certificate bytes.
    pub fn cert_pem(&self) -> (r: &Vec<u8>)
        ensures
            r@ == self@.cert_pem,
    {
        &self.cert_pem
    }

    /// The certificate chain bytes.
    pub fn chain_pem(&self) -> (r: &Vec<u8>)
        ensures
            r@ == self@.chain_pem,
    {
        &self.chain_pem
    }

    /// The public key bytes.
    pub fn public_key(&self) -> (r: &Vec<u8>)
        ensures
            r@ == self@.public_key,
    {
        &self.public_key
    }

    /// The private key bytes or reference.
    pub fn private_key(&self) -> (r: &Vec<u8>)
        ensures
            r@ == self@.private_key,
    {
        &self.private_key
    }

    /// Whether the private key is a payload or a reference.
    pub fn key_type(&self) -> (r: PrivateKeyType)
        ensures
            r == self@.key_type,
    {
        self.key_type
    }

    /// The alias the certificate was issued under.
    pub fn alias(&self) -> (r: &Vec<u8>)
        ensures
            r@ == self@.alias,
    {
        &self.alias
    }
}

} // verus!
