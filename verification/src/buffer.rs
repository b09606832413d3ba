use vstd::prelude::*;

use crate::errors::HsmError;

verus! {

/// What a fixed-capacity read of a stored byte value yields: the whole
/// value when the caller's capacity suffices, otherwise `BufferTooSmall`
/// carrying the exact required size.
pub open spec fn sized_read(data: Seq<u8>, cap: nat) -> Result<Seq<u8>, HsmError> {
    if data.len() <= cap {
        Result::Ok(data)
    } else {
        Result::Err(HsmError::BufferTooSmall { required: data.len() as usize })
    }
}

/// Copies a byte vector.
pub fn clone_bytes(v: &Vec<u8>) -> (r: Vec<u8>)
    ensures
        r@ == v@,
{
    let mut out: Vec<u8> = Vec::new();
    let mut i: usize = 0;
    while i < v.len()
        invariant
            i <= v@.len(),
            out@ == v@.take(i as int),
        decreases v@.len() - i,
    {
        out.push(v[i]);
        proof {
            assert(out@ =~= v@.take(i + 1));
        }
        i = i + 1;
    }
    proof {
        assert(v@.take(v@.len() as int) =~= v@);
    }
    out
}

/// Compares two byte vectors for equality of their contents.
pub fn bytes_eq(a: &Vec<u8>, b: &Vec<u8>) -> (r: bool)
    ensures
        r == (a@ == b@),
{
    if a.len() != b.len() {
        proof {
            assert(a@ != b@);
        }
        return false;
    }
    let mut i: usize = 0;
    while i < a.len()
        invariant
            a@.len() == b@.len(),
            i <= a@.len(),
            forall|j: int| 0 <= j < i ==> a@[j] == b@[j],
        decreases a@.len() - i,
    {
        if a[i] != b[i] {
            return false;
        }
        i = i + 1;
    }
    proof {
        assert(a@ =~= b@);
    }
    true
}

/// A sized buffer: the universal convention for variable-length outputs
/// (key material, signed digests, ciphertext, certificate bytes).
///
/// The buffer owns its bytes, so the length always equals the number of
/// valid bytes. A zero-length buffer is legal and means "empty but
/// present"; absence is expressed by `Option<SIZED_BUFFER_TAG>` at the
/// call sites that need it.
///
/// Ownership: a buffer produced by a backend operation belongs to the
/// caller, who must hand it back exactly once to that backend's
/// buffer-release operation. Handing it back consumes the buffer, so a
/// second release of the same buffer is impossible; each backend also
/// counts productions and releases so that tests can check the balance.
#[allow(non_camel_case_types)]
pub struct SIZED_BUFFER_TAG {
    data: Vec<u8>,
}

impl View for SIZED_BUFFER_TAG {
    type V = Seq<u8>;

    closed spec fn view(&self) -> Seq<u8> {
        self.data@
    }
}

impl SIZED_BUFFER_TAG {
    /// Wraps owned bytes as a sized buffer.
    pub fn from_vec(data: Vec<u8>) -> (r: SIZED_BUFFER_TAG)
        ensures
            r@ == data@,
    {
        SIZED_BUFFER_TAG { data }
    }

    /// The number of valid bytes.
    pub fn size(&self) -> (n: usize)
        ensures
            n == self@.len(),
    {
        self.data.len()
    }

    /// Borrows the bytes.
    pub fn bytes(&self) -> (r: &Vec<u8>)
        ensures
            r@ == self@,
    {
        &self.data
    }

    /// Surrenders the bytes.
    pub fn into_bytes(self) -> (r: Vec<u8>)
        ensures
            r@ == self@,
    {
        self.data
    }
}

} // verus!
