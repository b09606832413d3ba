use vstd::prelude::*;

use crate::buffer::clone_bytes;
use crate::buffer::SIZED_BUFFER_TAG;
use crate::errors::HsmError;
use crate::mixer::fold_mix;
use crate::mixer::fold_bytes;
use crate::mixer::mix;
use crate::mixer::mix_byte;

verus! {

/// Every digest the reference TPM produces has this many bytes.
pub const DIGEST_LEN: usize = 32;

/// Expands one accumulator byte into a full digest.
pub open spec fn expand(h: u8) -> Seq<u8> {
    Seq::new(DIGEST_LEN as nat, |j: int| mix(h, (j % 256) as u8))
}

/// The endorsement key of the reference TPM.
pub open spec fn endorsement_key() -> Seq<u8> {
    expand(0x45)
}

/// The storage root key of the reference TPM.
pub open spec fn storage_root_key() -> Seq<u8> {
    expand(0x53)
}

/// The digest of signing `data` directly with the identity key.
pub open spec fn sign_of(key: Seq<u8>, data: Seq<u8>) -> Seq<u8> {
    expand(fold_mix(fold_mix(0x51, key), data))
}

/// The digest of signing `data` with the key derived from the identity
/// key and the caller's identity. Only this digest leaves the backend;
/// the derived key never does.
pub open spec fn derive_sign_of(key: Seq<u8>, identity: Seq<u8>, data: Seq<u8>) -> Seq<u8> {
    expand(fold_mix(fold_mix(fold_mix(0x7C, key), identity), data))
}

/// Builds the digest `expand(h)` describes.
fn expand_bytes(h: u8) -> (v: Vec<u8>)
    ensures
        v@ == expand(h),
{
    let mut v: Vec<u8> = Vec::new();
    let mut j: usize = 0;
    while j < DIGEST_LEN
        invariant
            j <= DIGEST_LEN,
            v@.len() == j,
            forall|k: int| 0 <= k < j ==> v@[k] == expand(h)[k],
        decreases DIGEST_LEN - j,
    {
        v.push(mix_byte(h, (j % 256) as u8));
        j = j + 1;
    }
    proof {
        assert(v@ =~= expand(h));
    }
    v
}

/// The TPM interface's reference backend: identity-key activation, the
/// endorsement and storage-root keys, and signing bound to the hardware
/// root of trust — here emulated in memory.
pub struct TpmClient {
    /// The activated identity key, if any; signing needs it.
    pub identity_key: Option<Vec<u8>>,
    /// How many sized buffers this backend has handed out.
    pub allocated: u64,
    /// How many sized buffers were handed back for release.
    pub released: u64,
}

/// The fields a TPM operation other than buffer accounting leaves alone.
pub open spec fn tpm_same_counters(a: TpmClient, b: TpmClient) -> bool {
    a.allocated == b.allocated && a.released == b.released
}

/// The sizing query and the real call agree: for every identity key,
/// identity, and data, the digest that derive-and-sign produces has
/// exactly the length the sizing query reports, so a caller may
/// pre-allocate from the query without wasting a signing cycle.
pub proof fn lemma_sizing_query_exact(key: Seq<u8>, identity: Seq<u8>, data: Seq<u8>)
    ensures
        derive_sign_of(key, identity, data).len() == DIGEST_LEN,
{
}

impl TpmClient {
    /// Creates a fresh TPM backend with no activated identity key.
    pub fn create() -> (t: TpmClient)
        ensures
            t.identity_key is None,
            t.allocated == 0,
            t.released == 0,
    {
        TpmClient { identity_key: Option::None, allocated: 0, released: 0 }
    }

    /// Consumes and drops the backend.
    pub fn destroy(self) {
        let _dropped = self;
    }

    /// Activates (or replaces) the identity key. An empty key is
    /// refused.
    pub fn activate_identity_key(&mut self, key: &Vec<u8>) -> (r: Result<(), HsmError>)
        ensures
            key@.len() == 0 ==> r == Result::<(), HsmError>::Err(HsmError::InvalidArgument)
                && *final(self) == *old(self),
            key@.len() > 0 ==> r is Ok && (final(self).identity_key matches Some(k) && k@ == key@)
                && tpm_same_counters(*final(self), *old(self)),
    {
        if key.len() == 0 {
            return Result::Err(HsmError::InvalidArgument);
        }
        self.identity_key = Option::Some(clone_bytes(key));
        Result::Ok(())
    }

    /// Hands out the endorsement key in a fresh sized buffer the caller
    /// must release.
    pub fn get_ek(&mut self) -> (r: Result<SIZED_BUFFER_TAG, HsmError>)
        requires
            old(self).allocated < u64::MAX,
        ensures
            r matches Ok(out) && out@ == endorsement_key(),
            final(self).allocated == old(self).allocated + 1,
            final(self).released == old(self).released,
            final(self).identity_key == old(self).identity_key,
    {
        let bytes = expand_bytes(0x45);
        self.allocated = self.allocated + 1;
        Result::Ok(SIZED_BUFFER_TAG::from_vec(bytes))
    }

    /// Hands out the storage root key in a fresh sized buffer the
    /// caller must release.
    pub fn get_srk(&mut self) -> (r: Result<SIZED_BUFFER_TAG, HsmError>)
        requires
            old(self).allocated < u64::MAX,
        ensures
            r matches Ok(out) && out@ == storage_root_key(),
            final(self).allocated == old(self).allocated + 1,
            final(self).released == old(self).released,
            final(self).identity_key == old(self).identity_key,
    {
        let bytes = expand_bytes(0x53);
        self.allocated = self.allocated + 1;
        Result::Ok(SIZED_BUFFER_TAG::from_vec(bytes))
    }

    /// Signs `data` with the identity key; fails with `NotProvisioned`
    /// until a key is activated. The digest arrives in a fresh sized
    /// buffer the caller must release.
    pub fn sign_with_identity(&mut self, data: &Vec<u8>) -> (r: Result<SIZED_BUFFER_TAG, HsmError>)
        requires
            old(self).allocated < u64::MAX,
        ensures
            old(self).identity_key is None ==> r == Result::<SIZED_BUFFER_TAG, HsmError>::Err(
                HsmError::NotProvisioned,
            ) && *final(self) == *old(self),
            old(self).identity_key is Some ==> (r matches Ok(out) && out@ == sign_of(
                old(self).identity_key->Some_0@,
                data@,
            )) && final(self).allocated == old(self).allocated + 1 && final(self).released == old(self).released && final(self).identity_key == old(self).identity_key,
    {
        let h: u8;
        match &self.identity_key {
            Option::Some(key) => {
                let acc = fold_bytes(0x51, key);
                h = fold_bytes(acc, data);
            },
            Option::None => {
                return Result::Err(HsmError::NotProvisioned);
            },
        }
        let bytes = expand_bytes(h);
        self.allocated = self.allocated + 1;
        Result::Ok(SIZED_BUFFER_TAG::from_vec(bytes))
    }

    /// Reports the exact digest size a derive-and-sign call with these
    /// inputs will produce, without touching any key state — the
    /// sizing-query half of the dual-mode contract. Fails with
    /// `NotProvisioned` until a key is activated, as every identity
    /// operation does.
    pub fn derive_and_sign_required_size(&self, data: &Vec<u8>, identity: &Vec<u8>) -> (r: Result<
        usize,
        HsmError,
    >)
        ensures
            self.identity_key is None ==> r == Result::<usize, HsmError>::Err(
                HsmError::NotProvisioned,
            ),
            self.identity_key is Some ==> (r matches Ok(n) && n == derive_sign_of(
                self.identity_key->Some_0@,
                identity@,
                data@,
            ).len()),
    {
        if self.identity_key.is_none() {
            return Result::Err(HsmError::NotProvisioned);
        }
        Result::Ok(DIGEST_LEN)
    }

    /// Derives a per-identity signing key from the identity key and
    /// signs `data` with it; the derived key never leaves the backend.
    /// The digest arrives in a fresh sized buffer the caller must
    /// release, and its size is exactly what the sizing query reported.
    pub fn derive_and_sign_with_identity(&mut self, data: &Vec<u8>, identity: &Vec<u8>) -> (r:
        Result<SIZED_BUFFER_TAG, HsmError>)
        requires
            old(self).allocated < u64::MAX,
        ensures
            old(self).identity_key is None ==> r == Result::<SIZED_BUFFER_TAG, HsmError>::Err(
                HsmError::NotProvisioned,
            ) && *final(self) == *old(self),
            old(self).identity_key is Some ==> (r matches Ok(out) && out@ == derive_sign_of(
                old(self).identity_key->Some_0@,
                identity@,
                data@,
            ) && out@.len() == DIGEST_LEN) && final(self).allocated == old(self).allocated + 1
                && final(self).released == old(self).released && final(self).identity_key == old(self).identity_key,
    {
        let h: u8;
        match &self.identity_key {
            Option::Some(key) => {
                let acc = fold_bytes(0x7C, key);
                let acc = fold_bytes(acc, identity);
                h = fold_bytes(acc, data);
            },
            Option::None => {
                return Result::Err(HsmError::NotProvisioned);
            },
        }
        let bytes = expand_bytes(h);
        self.allocated = self.allocated + 1;
        Result::Ok(SIZED_BUFFER_TAG::from_vec(bytes))
    }

    /// How many sized buffers this backend has produced.
    pub fn allocations(&self) -> (r: u64)
        ensures
            r == self.allocated,
    {
        self.allocated
    }

    /// How many sized buffers were handed back for release.
    pub fn releases(&self) -> (r: u64)
        ensures
            r == self.released,
    {
        self.released
    }

    /// Releases a sized buffer this backend produced. Consuming the
    /// buffer makes a second release of the same buffer impossible.
    pub fn free_buffer(&mut self, buffer: SIZED_BUFFER_TAG)
        requires
            old(self).released < u64::MAX,
        ensures
            final(self).released == old(self).released + 1,
            final(self).allocated == old(self).allocated,
            final(self).identity_key == old(self).identity_key,
    {
        let _dropped = buffer;
        self.released = self.released + 1;
    }
}

} // verus!
