use vstd::prelude::*;

use crate::buffer::clone_bytes;
use crate::buffer::SIZED_BUFFER_TAG;

verus! {

/// The X.509 interface's reference backend: identity anchored in a
/// pre-provisioned client certificate rather than a TPM root — the
/// lighter-weight alternative for backends without dedicated hardware.
pub struct X509Client {
    /// The provisioned client certificate, PEM bytes.
    pub cert_pem: Vec<u8>,
    /// The provisioned key, PEM bytes or an opaque reference.
    pub key_pem: Vec<u8>,
    /// The certificate's common name.
    pub common_name: Vec<u8>,
    /// How many sized buffers this backend has handed out.
    pub allocated: u64,
    /// How many sized buffers were handed back for release.
    pub released: u64,
}

impl X509Client {
    /// Creates a backend around an already-provisioned identity.
    pub fn create(cert_pem: Vec<u8>, key_pem: Vec<u8>, common_name: Vec<u8>) -> (c: X509Client)
        ensures
            c.cert_pem@ == cert_pem@,
            c.key_pem@ == key_pem@,
            c.common_name@ == common_name@,
            c.allocated == 0,
            c.released == 0,
    {
        X509Client { cert_pem, key_pem, common_name, allocated: 0, released: 0 }
    }

    /// Consumes and drops the backend.
    pub fn destroy(self) {
        let _dropped = self;
    }

    /// Hands out the client certificate in a fresh sized buffer the
    /// caller must release.
    pub fn get_certificate(&mut self) -> (r: SIZED_BUFFER_TAG)
        requires
            old(self).allocated < u64::MAX,
        ensures
            r@ == old(self).cert_pem@,
            final(self).allocated == old(self).allocated + 1,
            final(self).released == old(self).released,
            final(self).cert_pem == old(self).cert_pem,
            final(self).key_pem == old(self).key_pem,
            final(self).common_name == old(self).common_name,
    {
        let bytes = clone_bytes(&self.cert_pem);
        self.allocated = self.allocated + 1;
        SIZED_BUFFER_TAG::from_vec(bytes)
    }

    /// Hands out the identity key in a fresh sized buffer the caller
    /// must release.
    pub fn get_key(&mut self) -> (r: SIZED_BUFFER_TAG)
        requires
            old(self).allocated < u64::MAX,
        ensures
            r@ == old(self).key_pem@,
            final(self).allocated == old(self).allocated + 1,
            final(self).released == old(self).released,
            final(self).cert_pem == old(self).cert_pem,
            final(self).key_pem == old(self).key_pem,
            final(self).common_name == old(self).common_name,
    {
        let bytes = clone_bytes(&self.key_pem);
        self.allocated = self.allocated + 1;
        SIZED_BUFFER_TAG::from_vec(bytes)
    }

    /// Hands out the common name in a fresh sized buffer the caller
    /// must release.
    pub fn get_common_name(&mut self) -> (r: SIZED_BUFFER_TAG)
        requires
            old(self).allocated < u64::MAX,
        ensures
            r@ == old(self).common_name@,
            final(self).allocated == old(self).allocated + 1,
            final(self).released == old(self).released,
            final(self).cert_pem == old(self).cert_pem,
            final(self).key_pem == old(self).key_pem,
            final(self).common_name == old(self).common_name,
    {
        let bytes = clone_bytes(&self.common_name);
        self.allocated = self.allocated + 1;
        SIZED_BUFFER_TAG::from_vec(bytes)
    }

    /// How many sized buffers this backend has produced.
    pub fn allocations(&self) -> (r: u64)
        ensures
            r == self.allocated,
    {
        self.allocated
    }

    /// How many sized buffers were handed back for release.
    pub fn releases(&self) -> (r: u64)
        ensures
            r == self.released,
    {
        self.released
    }

    /// Releases a sized buffer this backend produced. Consuming the
    /// buffer makes a second release of the same buffer impossible.
    pub fn free_buffer(&mut self, buffer: SIZED_BUFFER_TAG)
        requires
            old(self).released < u64::MAX,
        ensures
            final(self).released == old(self).released + 1,
            final(self).allocated == old(self).allocated,
            final(self).cert_pem == old(self).cert_pem,
            final(self).key_pem == old(self).key_pem,
            final(self).common_name == old(self).common_name,
    {
        let _dropped = buffer;
        self.released = self.released + 1;
    }
}

} // verus!
