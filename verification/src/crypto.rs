use vstd::prelude::*;

use crate::buffer::bytes_eq;
use crate::buffer::clone_bytes;
use crate::buffer::SIZED_BUFFER_TAG;
use crate::cert::cert_v_of;
use crate::cert::CertV;
use crate::cert::CryptoEncoding;
use crate::cert::PrivateKeyType;
use crate::cert::HSM_CERTIFICATE_TAG;
use crate::errors::HsmError;
use crate::mixer::fold_mix;
use crate::mixer::fold_mix_opt;
use crate::mixer::fold_bytes;
use crate::mixer::fold_bytes_opt;
use crate::mixer::opt_view;
use crate::props::HSM_CERTIFICATE_PROPS_TAG;

verus! {

/// A handle to one issued certificate inside a crypto backend's
/// registry. The handle is only an identifier: the backend owns the
/// assets, and a handle whose registry slot was destroyed is stale.
#[derive(Clone, Copy, Debug, PartialEq, Eq, Structural)]
pub struct CertHandle {
    pub id: usize,
}

/// What destroy-certificate-by-id reports. The call never fails: an
/// alias with no live certificate — never issued, or already destroyed —
/// is a no-op answered with `NotFound`.
#[derive(Clone, Copy, Debug, PartialEq, Eq, Structural)]
pub enum DestroyByIdStatus {
    Destroyed,
    NotFound,
}

/// Whether registry slot `i` holds a live certificate.
pub open spec fn live_at(certs: Seq<Option<HSM_CERTIFICATE_TAG>>, i: int) -> bool {
    0 <= i < certs.len() && certs[i] is Some
}

/// The alias stored in registry slot `i`.
pub open spec fn alias_at(certs: Seq<Option<HSM_CERTIFICATE_TAG>>, i: int) -> Seq<u8> {
    certs[i]->Some_0@.alias
}

/// The value of the certificate in registry slot `i`.
pub open spec fn cert_at(certs: Seq<Option<HSM_CERTIFICATE_TAG>>, i: int) -> CertV {
    certs[i]->Some_0@
}

/// Whether registry slot `i` holds a live certificate under `alias`.
pub open spec fn live_with_alias(
    certs: Seq<Option<HSM_CERTIFICATE_TAG>>,
    alias: Seq<u8>,
    i: int,
) -> bool {
    live_at(certs, i) && alias_at(certs, i) == alias
}

/// Whether some live certificate carries `alias`.
pub open spec fn has_live_alias(certs: Seq<Option<HSM_CERTIFICATE_TAG>>, alias: Seq<u8>) -> bool {
    exists|i: int| live_with_alias(certs, alias, i)
}

/// No two live certificates share an alias.
pub open spec fn distinct_live_aliases(certs: Seq<Option<HSM_CERTIFICATE_TAG>>) -> bool {
    forall|i: int, j: int|
        live_at(certs, i) && live_at(certs, j) && i != j ==> alias_at(certs, i) != alias_at(
            certs,
            j,
        )
}

/// Whether `alias` names an issuer the backend knows.
pub open spec fn issuer_known(issuers: Seq<Vec<u8>>, alias: Seq<u8>) -> bool {
    exists|i: int| 0 <= i < issuers.len() && issuers[i]@ == alias
}

/// The linear-congruential step of the reference backend's random
/// number source.
pub open spec fn rng_next(s: u64) -> u64 {
    ((s * 0x5851F42D4C957F2D + 0x14057B7EF767814F) % 0x1_0000_0000_0000_0000) as u64
}

/// The master encryption key the backend derives when it is provisioned
/// with random state `s`.
pub open spec fn master_key_of(s: u64) -> Seq<u8> {
    Seq::new(32, |i: int| (((s >> (((i % 8) * 8) as u64)) & 0xFF) as u8) ^ ((i % 256) as u8))
}

/// The single key byte the reference cipher derives from the master key
/// and the per-call inputs.
pub open spec fn stream_key(
    master: Seq<u8>,
    client_id: Seq<u8>,
    passphrase: Option<Seq<u8>>,
    iv: Option<Seq<u8>>,
) -> u8 {
    fold_mix_opt(fold_mix_opt(fold_mix(fold_mix(0x5Au8, master), client_id), passphrase), iv)
}

/// Position `i`'s keystream byte.
pub open spec fn keystream_byte(kb: u8, i: int) -> u8 {
    kb ^ ((i % 256) as u8)
}

/// The reference cipher: a self-inverse byte-wise transform of the data
/// under the derived key byte.
pub open spec fn xor_stream(kb: u8, data: Seq<u8>) -> Seq<u8> {
    Seq::new(data.len(), |i: int| data[i] ^ keystream_byte(kb, i))
}

/// The crypto interface's reference backend: random numbers, the master
/// encryption key lifecycle, symmetric encrypt/decrypt, and certificate
/// issuance and destruction, all in memory.
pub struct CryptoClient {
    /// Aliases of identities that may issue certificates.
    pub issuers: Vec<Vec<u8>>,
    /// The certificate registry; a destroyed slot stays `None` so that
    /// stale handles fail instead of reaching another certificate.
    pub certs: Vec<Option<HSM_CERTIFICATE_TAG>>,
    /// The master encryption key, once provisioned.
    pub master_key: Option<Vec<u8>>,
    /// Random number generator state.
    pub rng_state: u64,
    /// Smallest random number this backend returns.
    pub rng_min: u64,
    /// Largest random number this backend returns.
    pub rng_max: u64,
    /// Whether issued private keys may leave the backend as payloads.
    pub exportable_keys: bool,
    /// How many sized buffers this backend has handed out.
    pub allocated: u64,
    /// How many sized buffers were handed back for release.
    pub released: u64,
}

/// The fields a certificate operation leaves alone.
pub open spec fn same_rng(a: CryptoClient, b: CryptoClient) -> bool {
    a.rng_state == b.rng_state && a.rng_min == b.rng_min && a.rng_max == b.rng_max
}

/// The stored state an allocation-only operation leaves alone.
pub open spec fn same_store(a: CryptoClient, b: CryptoClient) -> bool {
    a.issuers == b.issuers && a.certs == b.certs && a.master_key == b.master_key
}

/// The buffer accounting a non-allocating operation leaves alone.
pub open spec fn same_counters(a: CryptoClient, b: CryptoClient) -> bool {
    a.allocated == b.allocated && a.released == b.released
}

/// Everything but the master key is untouched.
pub open spec fn same_except_master(a: CryptoClient, b: CryptoClient) -> bool {
    a.issuers == b.issuers && a.certs == b.certs && same_rng(a, b) && a.exportable_keys
        == b.exportable_keys && same_counters(a, b)
}

/// Everything but the certificate registry is untouched.
pub open spec fn same_except_certs(a: CryptoClient, b: CryptoClient) -> bool {
    a.issuers == b.issuers && a.master_key == b.master_key && same_rng(a, b) && a.exportable_keys
        == b.exportable_keys && same_counters(a, b)
}

/// Everything but the issuer list is untouched.
pub open spec fn same_except_issuers(a: CryptoClient, b: CryptoClient) -> bool {
    a.certs == b.certs && a.master_key == b.master_key && same_rng(a, b) && a.exportable_keys
        == b.exportable_keys && same_counters(a, b)
}

/// Everything but the random-number state is untouched.
pub open spec fn same_except_rng_state(a: CryptoClient, b: CryptoClient) -> bool {
    a.issuers == b.issuers && a.certs == b.certs && a.master_key == b.master_key && a.rng_min
        == b.rng_min && a.rng_max == b.rng_max && a.exportable_keys == b.exportable_keys
        && same_counters(a, b)
}

/// Everything but the buffer accounting is untouched.
pub open spec fn same_except_counters(a: CryptoClient, b: CryptoClient) -> bool {
    same_store(a, b) && same_rng(a, b) && a.exportable_keys == b.exportable_keys
}

/// Looks up whether any stored issuer alias equals `alias`.
fn find_issuer(issuers: &Vec<Vec<u8>>, alias: &Vec<u8>) -> (r: bool)
    ensures
        r == issuer_known(issuers@, alias@),
{
    let mut i: usize = 0;
    while i < issuers.len()
        invariant
            i <= issuers@.len(),
            forall|j: int| 0 <= j < i ==> issuers@[j]@ != alias@,
        decreases issuers@.len() - i,
    {
        if bytes_eq(&issuers[i], alias) {
            proof {
                assert(issuer_known(issuers@, alias@)) by {
                    assert(0 <= i < issuers@.len() && issuers@[i as int]@ == alias@);
                }
            }
            return true;
        }
        i = i + 1;
    }
    proof {
        assert(!issuer_known(issuers@, alias@)) by {
            assert(forall|j: int| 0 <= j < issuers@.len() ==> issuers@[j]@ != alias@);
        }
    }
    false
}

/// Finds the slot of the live certificate carrying `alias`, if any.
fn find_live_alias(certs: &Vec<Option<HSM_CERTIFICATE_TAG>>, alias: &Vec<u8>) -> (r: Option<usize>)
    ensures
        r matches Some(i) ==> live_with_alias(certs@, alias@, i as int),
        r is None ==> !has_live_alias(certs@, alias@),
{
    let mut i: usize = 0;
    while i < certs.len()
        invariant
            i <= certs@.len(),
            forall|j: int| 0 <= j < i ==> !live_with_alias(certs@, alias@, j),
        decreases certs@.len() - i,
    {
        let slot = &certs[i];
        match slot {
            Option::Some(c) => {
                if bytes_eq(c.alias(), alias) {
                    return Option::Some(i);
                }
            },
            Option::None => {},
        }
        i = i + 1;
    }
    proof {
        assert forall|j: int| !live_with_alias(certs@, alias@, j) by {
            if 0 <= j < certs@.len() {
                assert(!live_with_alias(certs@, alias@, j));
            }
        }
    }
    Option::None
}

/// Applies the reference cipher to `data` under key byte `kb`.
fn xor_transform(kb: u8, data: &Vec<u8>) -> (v: Vec<u8>)
    ensures
        v@ == xor_stream(kb, data@),
{
    let mut v: Vec<u8> = Vec::new();
    let mut i: usize = 0;
    while i < data.len()
        invariant
            i <= data@.len(),
            v@.len() == i,
            forall|j: int| 0 <= j < i ==> v@[j] == data@[j] ^ keystream_byte(kb, j),
        decreases data@.len() - i,
    {
        let key_i: u8 = kb ^ ((i % 256) as u8);
        v.push(data[i] ^ key_i);
        i = i + 1;
    }
    proof {
        assert(v@ =~= xor_stream(kb, data@));
    }
    v
}

/// The reference cipher undoes itself: transforming a byte sequence
/// twice under the same key byte restores the sequence.
pub proof fn lemma_xor_stream_roundtrip(kb: u8, data: Seq<u8>)
    ensures
        xor_stream(kb, xor_stream(kb, data)) == data,
{
    let once = xor_stream(kb, data);
    assert forall|i: int| 0 <= i < data.len() implies xor_stream(kb, once)[i] == data[i] by {
        let k = keystream_byte(kb, i);
        let d = data[i];
        assert((d ^ k) ^ k == d) by (bit_vector);
    }
    assert(xor_stream(kb, xor_stream(kb, data)) =~= data);
}

/// Decrypting with the same master key, client identity, passphrase,
/// and initialization vector that encrypted a plaintext restores that
/// plaintext exactly.
pub proof fn lemma_decrypt_restores_plaintext(
    master: Seq<u8>,
    client_id: Seq<u8>,
    passphrase: Option<Seq<u8>>,
    iv: Option<Seq<u8>>,
    plaintext: Seq<u8>,
)
    ensures
        xor_stream(
            stream_key(master, client_id, passphrase, iv),
            xor_stream(stream_key(master, client_id, passphrase, iv), plaintext),
        ) == plaintext,
{
    lemma_xor_stream_roundtrip(stream_key(master, client_id, passphrase, iv), plaintext);
}

/// Removing the one live certificate that carries `alias` leaves no
/// live certificate carrying `alias`: the core of destroy-by-id
/// idempotence. A repeated destroy-by-id therefore finds nothing,
/// changes nothing, and reports `NotFound`.
pub proof fn lemma_destroy_by_id_idempotent(
    certs: Seq<Option<HSM_CERTIFICATE_TAG>>,
    alias: Seq<u8>,
    i: int,
)
    requires
        distinct_live_aliases(certs),
        live_with_alias(certs, alias, i),
    ensures
        !has_live_alias(certs.update(i, Option::None::<HSM_CERTIFICATE_TAG>), alias),
{
    let after = certs.update(i, Option::None::<HSM_CERTIFICATE_TAG>);
    assert forall|j: int| !live_with_alias(after, alias, j) by {
        if live_with_alias(after, alias, j) {
            assert(j != i);
            assert(after[j] == certs[j]);
            assert(live_with_alias(certs, alias, j));
            assert(alias_at(certs, i) == alias_at(certs, j));
            assert(false);
        }
    }
}

impl CryptoClient {
    /// The backend's internal consistency: live aliases are unique, and
    /// the declared random-number bounds are a non-empty range narrower
    /// than the full machine word.
    pub open spec fn wf(&self) -> bool {
        &&& distinct_live_aliases(self.certs@)
        &&& self.rng_min <= self.rng_max
        &&& self.rng_max - self.rng_min < u64::MAX
    }

    /// Creates a fresh backend: no issuers, no certificates, no master
    /// key, and the backend-declared random-number bounds.
    pub fn create(exportable_keys: bool) -> (c: CryptoClient)
        ensures
            c.wf(),
            c.issuers@.len() == 0,
            c.certs@.len() == 0,
            c.master_key is None,
            c.exportable_keys == exportable_keys,
            c.allocated == 0,
            c.released == 0,
    {
        CryptoClient {
            issuers: Vec::new(),
            certs: Vec::new(),
            master_key: Option::None,
            rng_state: 0x9E3779B97F4A7C15,
            rng_min: 0,
            rng_max: 0xFFFF_FFFF,
            exportable_keys,
            allocated: 0,
            released: 0,
        }
    }

    /// Consumes and drops the backend, releasing every asset it owns.
    pub fn destroy(self) {
        let _dropped = self;
    }

    /// Makes `alias` known as an issuer, so that properties naming it
    /// can be consumed by create-certificate. An empty alias is refused.
    pub fn register_issuer(&mut self, alias: &Vec<u8>) -> (r: Result<(), HsmError>)
        requires
            old(self).wf(),
        ensures
            final(self).wf(),
            alias@.len() == 0 ==> r == Result::<(), HsmError>::Err(HsmError::InvalidArgument)
                && *final(self) == *old(self),
            alias@.len() > 0 ==> r is Ok && final(self).issuers@.len() == old(self).issuers@.len()
                + 1 && (forall|i: int|
                0 <= i < old(self).issuers@.len() ==> final(self).issuers@[i] == old(self).issuers@[i]) && final(self).issuers@.last()@ == alias@ && same_except_issuers(
                *final(self),
                *old(self),
            ),
            alias@.len() > 0 ==> issuer_known(final(self).issuers@, alias@),
    {
        if alias.len() == 0 {
            return Result::Err(HsmError::InvalidArgument);
        }
        let copy = clone_bytes(alias);
        self.issuers.push(copy);
        proof {
            let n = self.issuers@.len() - 1;
            assert(issuer_known(self.issuers@, alias@)) by {
                assert(0 <= n < self.issuers@.len() && self.issuers@[n]@ == alias@);
            }
        }
        Result::Ok(())
    }

    /// Reports the inclusive bounds every random number respects.
    pub fn get_random_number_limits(&self) -> (r: (u64, u64))
        requires
            self.wf(),
        ensures
            r.0 == self.rng_min,
            r.1 == self.rng_max,
            r.0 <= r.1,
    {
        (self.rng_min, self.rng_max)
    }

    /// Draws the next random number. The result always lies within the
    /// bounds that get-random-number-limits reports.
    pub fn get_random_number(&mut self) -> (r: u64)
        requires
            old(self).wf(),
        ensures
            final(self).wf(),
            old(self).rng_min <= r <= old(self).rng_max,
            r == old(self).rng_min + (rng_next(old(self).rng_state) as int % (old(self).rng_max
                - old(self).rng_min + 1)),
            final(self).rng_state == rng_next(old(self).rng_state),
            same_except_rng_state(*final(self), *old(self)),
    {
        proof {
            vstd::arithmetic::mul::lemma_mul_inequality(
                self.rng_state as int,
                0xFFFF_FFFF_FFFF_FFFFu64 as int,
                0x5851F42D4C957F2D,
            );
        }
        let wide: u128 = (self.rng_state as u128) * 0x5851F42D4C957F2D + 0x14057B7EF767814F;
        proof {
            vstd::arithmetic::div_mod::lemma_mod_bound(wide as int, 0x1_0000_0000_0000_0000);
        }
        let next: u64 = (wide % 0x1_0000_0000_0000_0000) as u64;
        self.rng_state = next;
        let span: u64 = self.rng_max - self.rng_min + 1;
        proof {
            vstd::arithmetic::div_mod::lemma_mod_bound(next as int, span as int);
        }
        self.rng_min + (next % span)
    }

    /// Provisions the master encryption key; refused when one exists.
    pub fn create_master_encryption_key(&mut self) -> (r: Result<(), HsmError>)
        requires
            old(self).wf(),
        ensures
            final(self).wf(),
            old(self).master_key is Some ==> r == Result::<(), HsmError>::Err(
                HsmError::AlreadyProvisioned,
            ) && *final(self) == *old(self),
            old(self).master_key is None ==> r is Ok && (final(self).master_key matches Some(k)
                && k@ == master_key_of(old(self).rng_state)) && same_except_master(
                *final(self),
                *old(self),
            ),
    {
        if self.master_key.is_some() {
            return Result::Err(HsmError::AlreadyProvisioned);
        }
        let s: u64 = self.rng_state;
        let mut key: Vec<u8> = Vec::new();
        let mut i: usize = 0;
        while i < 32
            invariant
                i <= 32,
                key@.len() == i,
                forall|j: int| 0 <= j < i ==> key@[j] == master_key_of(s)[j],
            decreases 32 - i,
        {
            let shift: u64 = ((i % 8) * 8) as u64;
            let b: u8 = (((s >> shift) & 0xFF) as u8) ^ ((i % 256) as u8);
            key.push(b);
            i = i + 1;
        }
        proof {
            assert(key@ =~= master_key_of(s));
        }
        self.master_key = Option::Some(key);
        Result::Ok(())
    }

    /// Removes the master encryption key. Everything encrypted under
    /// keys derived from it becomes irrecoverable; refused when no key
    /// exists.
    pub fn destroy_master_encryption_key(&mut self) -> (r: Result<(), HsmError>)
        requires
            old(self).wf(),
        ensures
            final(self).wf(),
            old(self).master_key is None ==> r == Result::<(), HsmError>::Err(
                HsmError::NotProvisioned,
            ) && *final(self) == *old(self),
            old(self).master_key is Some ==> r is Ok && final(self).master_key is None
                && same_except_master(*final(self), *old(self)),
    {
        if self.master_key.is_none() {
            return Result::Err(HsmError::NotProvisioned);
        }
        self.master_key = Option::None;
        Result::Ok(())
    }

    /// How many sized buffers this backend has produced.
    pub fn allocations(&self) -> (r: u64)
        ensures
            r == self.allocated,
    {
        self.allocated
    }

    /// How many sized buffers were handed back for release.
    pub fn releases(&self) -> (r: u64)
        ensures
            r == self.released,
    {
        self.released
    }

    /// Issues a certificate from the given properties.
    ///
    /// The properties must carry a non-empty alias not already used by a
    /// live certificate (`InvalidArgument` otherwise), and their issuer
    /// alias must name a registered issuer (`UnknownIssuer` otherwise).
    /// On success the new certificate occupies a fresh registry slot and
    /// the returned handle names that slot; on failure nothing changes
    /// and in particular no buffer is allocated.
    pub fn create_certificate(&mut self, certificate_props: &HSM_CERTIFICATE_PROPS_TAG) -> (r:
        Result<CertHandle, HsmError>)
        requires
            old(self).wf(),
        ensures
            final(self).wf(),
            ({
                let bad_alias = certificate_props@.alias.len() == 0 || has_live_alias(
                    old(self).certs@,
                    certificate_props@.alias,
                );
                let unknown = !issuer_known(old(self).issuers@, certificate_props@.issuer_alias);
                &&& (bad_alias ==> r == Result::<CertHandle, HsmError>::Err(
                    HsmError::InvalidArgument,
                ) && *final(self) == *old(self))
                &&& (!bad_alias && unknown ==> r == Result::<CertHandle, HsmError>::Err(
                    HsmError::UnknownIssuer,
                ) && *final(self) == *old(self))
                &&& (!bad_alias && !unknown ==> (r matches Ok(h) && h.id == old(self).certs@.len())
                    && final(self).certs@.len() == old(self).certs@.len() + 1 && (forall|i: int|
                    0 <= i < old(self).certs@.len() ==> final(self).certs@[i] == old(self).certs@[i]) && (final(self).certs@.last() matches Some(c) && c@ == cert_v_of(
                    certificate_props@,
                    old(self).exportable_keys,
                )) && same_except_certs(*final(self), *old(self)))
            }),
    {
        if certificate_props.alias_ref().len() == 0 {
            return Result::Err(HsmError::InvalidArgument);
        }
        match find_live_alias(&self.certs, certificate_props.alias_ref()) {
            Option::Some(_) => {
                return Result::Err(HsmError::InvalidArgument);
            },
            Option::None => {},
        }
        if !find_issuer(&self.issuers, certificate_props.issuer_alias_ref()) {
            return Result::Err(HsmError::UnknownIssuer);
        }
        let record = HSM_CERTIFICATE_TAG::issue(certificate_props, self.exportable_keys);
        let id = self.certs.len();
        self.certs.push(Option::Some(record));
        proof {
            let certs0 = old(self).certs@;
            let certs1 = self.certs@;
            assert forall|i: int, j: int|
                live_at(certs1, i) && live_at(certs1, j) && i != j implies alias_at(certs1, i)
                != alias_at(certs1, j) by {
                if i < certs0.len() && j < certs0.len() {
                    assert(certs1[i] == certs0[i]);
                    assert(certs1[j] == certs0[j]);
                    assert(live_at(certs0, i) && live_at(certs0, j));
                    assert(alias_at(certs0, i) != alias_at(certs0, j));
                } else if i == certs0.len() && 0 <= j < certs0.len() {
                    assert(certs1[j] == certs0[j]);
                    assert(alias_at(certs1, i) == certificate_props@.alias);
                    if alias_at(certs0, j) == certificate_props@.alias {
                        assert(live_with_alias(certs0, certificate_props@.alias, j));
                        assert(false);
                    }
                } else if j == certs0.len() && 0 <= i < certs0.len() {
                    assert(certs1[i] == certs0[i]);
                    assert(alias_at(certs1, j) == certificate_props@.alias);
                    if alias_at(certs0, i) == certificate_props@.alias {
                        assert(live_with_alias(certs0, certificate_props@.alias, i));
                        assert(false);
                    }
                }
            }
            assert(distinct_live_aliases(certs1));
        }
        Result::Ok(CertHandle { id })
    }

    /// Destroys the certificate a handle names, releasing its registry
    /// slot. A stale or out-of-range handle — including one whose
    /// certificate was already destroyed — is answered with
    /// `InvalidHandle` and changes nothing; the call never panics.
    pub fn destroy_certificate(&mut self, cert_handle: CertHandle) -> (r: Result<(), HsmError>)
        requires
            old(self).wf(),
        ensures
            final(self).wf(),
            r is Ok <==> live_at(old(self).certs@, cert_handle.id as int),
            r is Ok ==> final(self).certs@ == old(self).certs@.update(
                cert_handle.id as int,
                Option::None::<HSM_CERTIFICATE_TAG>,
            ) && same_except_certs(*final(self), *old(self)),
            r is Err ==> r == Result::<(), HsmError>::Err(HsmError::InvalidHandle) && *final(self)
                == *old(self),
    {
        if cert_handle.id < self.certs.len() {
            let live = self.certs[cert_handle.id].is_some();
            if live {
                self.certs[cert_handle.id] = Option::None;
                proof {
                    let certs0 = old(self).certs@;
                    let certs1 = self.certs@;
                    assert forall|i: int, j: int|
                        live_at(certs1, i) && live_at(certs1, j) && i != j implies alias_at(
                        certs1,
                        i,
                    ) != alias_at(certs1, j) by {
                        assert(certs1[i] == certs0[i]);
                        assert(certs1[j] == certs0[j]);
                        assert(live_at(certs0, i) && live_at(certs0, j));
                        assert(alias_at(certs0, i) != alias_at(certs0, j));
                    }
                    assert(distinct_live_aliases(certs1));
                }
                return Result::Ok(());
            }
        }
        Result::Err(HsmError::InvalidHandle)
    }

    /// Destroys the live certificate carrying `alias`, if there is one.
    ///
    /// The call never fails: when no live certificate carries the alias
    /// — it was never issued, or a destroy already removed it — the
    /// backend reports `NotFound` and changes nothing. After any call no
    /// live certificate carries the alias, so a repeated call is a
    /// `NotFound` no-op.
    pub fn destroy_certificate_by_id(&mut self, alias: &Vec<u8>) -> (r: DestroyByIdStatus)
        requires
            old(self).wf(),
        ensures
            final(self).wf(),
            r == DestroyByIdStatus::Destroyed <==> has_live_alias(old(self).certs@, alias@),
            r == DestroyByIdStatus::Destroyed ==> (exists|i: int|
                live_with_alias(old(self).certs@, alias@, i) && final(self).certs@ == old(self).certs@.update(i, Option::None::<HSM_CERTIFICATE_TAG>)) && same_except_certs(
                *final(self),
                *old(self),
            ),
            r == DestroyByIdStatus::NotFound ==> *final(self) == *old(self),
            !has_live_alias(final(self).certs@, alias@),
    {
        match find_live_alias(&self.certs, alias) {
            Option::Some(i) => {
                self.certs[i] = Option::None;
                proof {
                    let certs0 = old(self).certs@;
                    let certs1 = self.certs@;
                    lemma_destroy_by_id_idempotent(certs0, alias@, i as int);
                    assert(live_with_alias(certs0, alias@, i as int) && certs1 == certs0.update(
                        i as int,
                        Option::None::<HSM_CERTIFICATE_TAG>,
                    ));
                    assert forall|x: int, y: int|
                        live_at(certs1, x) && live_at(certs1, y) && x != y implies alias_at(
                        certs1,
                        x,
                    ) != alias_at(certs1, y) by {
                        assert(certs1[x] == certs0[x]);
                        assert(certs1[y] == certs0[y]);
                        assert(live_at(certs0, x) && live_at(certs0, y));
                        assert(alias_at(certs0, x) != alias_at(certs0, y));
                    }
                    assert(distinct_live_aliases(certs1));
                }
                DestroyByIdStatus::Destroyed
            },
            Option::None => DestroyByIdStatus::NotFound,
        }
    }

    /// Hands out the certificate bytes the handle names, PEM-encoded,
    /// in a fresh sized buffer the caller must release. A stale handle
    /// is answered with `InvalidHandle`.
    pub fn get_certificate(&mut self, cert_handle: CertHandle) -> (r: Result<
        (SIZED_BUFFER_TAG, CryptoEncoding),
        HsmError,
    >)
        requires
            old(self).wf(),
            old(self).allocated < u64::MAX,
        ensures
            final(self).wf(),
            r is Ok <==> live_at(old(self).certs@, cert_handle.id as int),
            r matches Ok(out) ==> out.0@ == cert_at(old(self).certs@, cert_handle.id as int).cert_pem
                && out.1 == CryptoEncoding::Pem && final(self).allocated == old(self).allocated + 1
                && final(self).released == old(self).released && same_except_counters(
                *final(self),
                *old(self),
            ),
            r is Err ==> r == Result::<(SIZED_BUFFER_TAG, CryptoEncoding), HsmError>::Err(
                HsmError::InvalidHandle,
            ) && *final(self) == *old(self),
    {
        if cert_handle.id >= self.certs.len() {
            return Result::Err(HsmError::InvalidHandle);
        }
        let bytes: Vec<u8>;
        match &self.certs[cert_handle.id] {
            Option::Some(c) => {
                bytes = clone_bytes(c.cert_pem());
            },
            Option::None => {
                return Result::Err(HsmError::InvalidHandle);
            },
        }
        self.allocated = self.allocated + 1;
        Result::Ok((SIZED_BUFFER_TAG::from_vec(bytes), CryptoEncoding::Pem))
    }

    /// Hands out the certificate chain, PEM-encoded, in a fresh sized
    /// buffer the caller must release.
    pub fn get_certificate_chain(&mut self, cert_handle: CertHandle) -> (r: Result<
        (SIZED_BUFFER_TAG, CryptoEncoding),
        HsmError,
    >)
        requires
            old(self).wf(),
            old(self).allocated < u64::MAX,
        ensures
            final(self).wf(),
            r is Ok <==> live_at(old(self).certs@, cert_handle.id as int),
            r matches Ok(out) ==> out.0@ == cert_at(old(self).certs@, cert_handle.id as int).chain_pem
                && out.1 == CryptoEncoding::Pem && final(self).allocated == old(self).allocated + 1
                && final(self).released == old(self).released && same_except_counters(
                *final(self),
                *old(self),
            ),
            r is Err ==> r == Result::<(SIZED_BUFFER_TAG, CryptoEncoding), HsmError>::Err(
                HsmError::InvalidHandle,
            ) && *final(self) == *old(self),
    {
        if cert_handle.id >= self.certs.len() {
            return Result::Err(HsmError::InvalidHandle);
        }
        let bytes: Vec<u8>;
        match &self.certs[cert_handle.id] {
            Option::Some(c) => {
                bytes = clone_bytes(c.chain_pem());
            },
            Option::None => {
                return Result::Err(HsmError::InvalidHandle);
            },
        }
        self.allocated = self.allocated + 1;
        Result::Ok((SIZED_BUFFER_TAG::from_vec(bytes), CryptoEncoding::Pem))
    }

    /// Hands out the public key, DER-encoded, in a fresh sized buffer
    /// the caller must release.
    pub fn get_public_key(&mut self, cert_handle: CertHandle) -> (r: Result<
        (SIZED_BUFFER_TAG, CryptoEncoding),
        HsmError,
    >)
        requires
            old(self).wf(),
            old(self).allocated < u64::MAX,
        ensures
            final(self).wf(),
            r is Ok <==> live_at(old(self).certs@, cert_handle.id as int),
            r matches Ok(out) ==> out.0@ == cert_at(old(self).certs@, cert_handle.id as int).public_key
                && out.1 == CryptoEncoding::Der && final(self).allocated == old(self).allocated + 1
                && final(self).released == old(self).released && same_except_counters(
                *final(self),
                *old(self),
            ),
            r is Err ==> r == Result::<(SIZED_BUFFER_TAG, CryptoEncoding), HsmError>::Err(
                HsmError::InvalidHandle,
            ) && *final(self) == *old(self),
    {
        if cert_handle.id >= self.certs.len() {
            return Result::Err(HsmError::InvalidHandle);
        }
        let bytes: Vec<u8>;
        match &self.certs[cert_handle.id] {
            Option::Some(c) => {
                bytes = clone_bytes(c.public_key());
            },
            Option::None => {
                return Result::Err(HsmError::InvalidHandle);
            },
        }
        self.allocated = self.allocated + 1;
        Result::Ok((SIZED_BUFFER_TAG::from_vec(bytes), CryptoEncoding::Der))
    }

    /// Hands out the private key or its reference in a fresh sized
    /// buffer the caller must release, with the key type and encoding:
    /// a non-exportable key arrives as an ASCII, null-terminated
    /// reference, an exported payload as PEM bytes. Both output values
    /// are produced together or not at all.
    pub fn get_private_key(&mut self, cert_handle: CertHandle) -> (r: Result<
        (SIZED_BUFFER_TAG, PrivateKeyType, CryptoEncoding),
        HsmError,
    >)
        requires
            old(self).wf(),
            old(self).allocated < u64::MAX,
        ensures
            final(self).wf(),
            r is Ok <==> live_at(old(self).certs@, cert_handle.id as int),
            r matches Ok(out) ==> out.0@ == cert_at(old(self).certs@, cert_handle.id as int).private_key
                && out.1 == cert_at(old(self).certs@, cert_handle.id as int).key_type && out.2
                == (if out.1 == PrivateKeyType::Reference {
                CryptoEncoding::Ascii
            } else {
                CryptoEncoding::Pem
            }) && final(self).allocated == old(self).allocated + 1 && final(self).released == old(self).released && same_except_counters(*final(self), *old(self)),
            r is Err ==> r == Result::<(SIZED_BUFFER_TAG, PrivateKeyType, CryptoEncoding), HsmError>::Err(
                HsmError::InvalidHandle,
            ) && *final(self) == *old(self),
    {
        if cert_handle.id >= self.certs.len() {
            return Result::Err(HsmError::InvalidHandle);
        }
        let bytes: Vec<u8>;
        let key_type: PrivateKeyType;
        match &self.certs[cert_handle.id] {
            Option::Some(c) => {
                bytes = clone_bytes(c.private_key());
                key_type = c.key_type();
            },
            Option::None => {
                return Result::Err(HsmError::InvalidHandle);
            },
        }
        self.allocated = self.allocated + 1;
        let enc = match key_type {
            PrivateKeyType::Reference => CryptoEncoding::Ascii,
            _ => CryptoEncoding::Pem,
        };
        Result::Ok((SIZED_BUFFER_TAG::from_vec(bytes), key_type, enc))
    }

    /// Encrypts a plaintext under a key derived from the master key,
    /// the client identity, and the optional passphrase and
    /// initialization vector. The ciphertext arrives in a fresh sized
    /// buffer the caller must release. An empty client identity is
    /// refused; without a master key the backend is not provisioned.
    pub fn encrypt_data(
        &mut self,
        client_id: &Vec<u8>,
        plaintext: &Vec<u8>,
        passphrase: &Option<Vec<u8>>,
        initialization_vector: &Option<Vec<u8>>,
    ) -> (r: Result<SIZED_BUFFER_TAG, HsmError>)
        requires
            old(self).wf(),
            old(self).allocated < u64::MAX,
        ensures
            final(self).wf(),
            client_id@.len() == 0 ==> r == Result::<SIZED_BUFFER_TAG, HsmError>::Err(
                HsmError::InvalidArgument,
            ) && *final(self) == *old(self),
            client_id@.len() > 0 && old(self).master_key is None ==> r == Result::<
                SIZED_BUFFER_TAG,
                HsmError,
            >::Err(HsmError::NotProvisioned) && *final(self) == *old(self),
            client_id@.len() > 0 && old(self).master_key is Some ==> (r matches Ok(out)
                && out@ == xor_stream(
                stream_key(
                    old(self).master_key->Some_0@,
                    client_id@,
                    opt_view(*passphrase),
                    opt_view(*initialization_vector),
                ),
                plaintext@,
            )) && final(self).allocated == old(self).allocated + 1 && final(self).released == old(self).released && same_except_counters(*final(self), *old(self)),
    {
        if client_id.len() == 0 {
            return Result::Err(HsmError::InvalidArgument);
        }
        let kb: u8;
        match &self.master_key {
            Option::Some(mk) => {
                let acc = fold_bytes(0x5A, mk);
                let acc = fold_bytes(acc, client_id);
                let acc = fold_bytes_opt(acc, passphrase);
                kb = fold_bytes_opt(acc, initialization_vector);
            },
            Option::None => {
                return Result::Err(HsmError::NotProvisioned);
            },
        }
        let out = xor_transform(kb, plaintext);
        self.allocated = self.allocated + 1;
        Result::Ok(SIZED_BUFFER_TAG::from_vec(out))
    }

    /// Decrypts a ciphertext with the same derived key that encrypted
    /// it; the reference cipher is self-inverse, so decryption applies
    /// the same transform. The plaintext arrives in a fresh sized
    /// buffer the caller must release.
    pub fn decrypt_data(
        &mut self,
        client_id: &Vec<u8>,
        ciphertext: &Vec<u8>,
        passphrase: &Option<Vec<u8>>,
        initialization_vector: &Option<Vec<u8>>,
    ) -> (r: Result<SIZED_BUFFER_TAG, HsmError>)
        requires
            old(self).wf(),
            old(self).allocated < u64::MAX,
        ensures
            final(self).wf(),
            client_id@.len() == 0 ==> r == Result::<SIZED_BUFFER_TAG, HsmError>::Err(
                HsmError::InvalidArgument,
            ) && *final(self) == *old(self),
            client_id@.len() > 0 && old(self).master_key is None ==> r == Result::<
                SIZED_BUFFER_TAG,
                HsmError,
            >::Err(HsmError::NotProvisioned) && *final(self) == *old(self),
            client_id@.len() > 0 && old(self).master_key is Some ==> (r matches Ok(out)
                && out@ == xor_stream(
                stream_key(
                    old(self).master_key->Some_0@,
                    client_id@,
                    opt_view(*passphrase),
                    opt_view(*initialization_vector),
                ),
                ciphertext@,
            )) && final(self).allocated == old(self).allocated + 1 && final(self).released == old(self).released && same_except_counters(*final(self), *old(self)),
    {
        if client_id.len() == 0 {
            return Result::Err(HsmError::InvalidArgument);
        }
        let kb: u8;
        match &self.master_key {
            Option::Some(mk) => {
                let acc = fold_bytes(0x5A, mk);
                let acc = fold_bytes(acc, client_id);
                let acc = fold_bytes_opt(acc, passphrase);
                kb = fold_bytes_opt(acc, initialization_vector);
            },
            Option::None => {
                return Result::Err(HsmError::NotProvisioned);
            },
        }
        let out = xor_transform(kb, ciphertext);
        self.allocated = self.allocated + 1;
        Result::Ok(SIZED_BUFFER_TAG::from_vec(out))
    }

    /// Releases a sized buffer this backend produced. Consuming the
    /// buffer makes a second release of the same buffer impossible.
    pub fn free_buffer(&mut self, buffer: SIZED_BUFFER_TAG)
        requires
            old(self).wf(),
            old(self).released < u64::MAX,
        ensures
            final(self).wf(),
            final(self).released == old(self).released + 1,
            final(self).allocated == old(self).allocated,
            same_except_counters(*final(self), *old(self)),
    {
        let _dropped = buffer;
        self.released = self.released + 1;
    }
}

} // verus!
