//! Message checksums: an AEGIS-128L authentication tag over the data, with a
//! zero key and zero nonce, read as a little-endian 128-bit integer.

use vstd::prelude::*;

verus! {

/// The tag that the AEGIS-128L MAC assigns to a byte sequence, with a zero key
/// and nonce and the data passed as associated data. Deterministic: it depends
/// on the bytes alone.
pub uninterp spec fn mac_of(data: Seq<u8>) -> u128;

/// Relies on `aegis::aegis128l::Aegis128L::encrypt`: with an empty message the
/// returned authentication tag depends only on the key, nonce and associated
/// data, and the key and nonce are fixed to zero here. The empty-input tag is
/// the protocol's fixed test vector, which follows from the cipher's
/// definition with this key and nonce; the runtime tests pin it against the
/// real implementation.
#[verifier::external_body]
pub fn checksum(data: &[u8]) -> (r: u128)
    ensures
        r == mac_of(data@),
        data@.len() == 0 ==> r == 0x49F174618255402DE6E7E3C40D60CC83u128,
{
    let zero_key: [u8; 16] = [0u8; 16];
    let zero_nonce: [u8; 16] = [0u8; 16];
    let cipher = aegis::aegis128l::Aegis128L::<16>::new(&zero_key, &zero_nonce);
    let (_, tag) = cipher.encrypt(&[], data);
    u128::from_le_bytes(tag)
}

/// Streaming checksum: accumulates the bytes and computes the tag at the end.
pub struct ChecksumStream {
    data: Vec<u8>,
}

impl ChecksumStream {
    /// The bytes accumulated so far.
    pub closed spec fn view(&self) -> Seq<u8> {
        self.data@
    }

    /// Start a stream with no data.
    pub fn new() -> (r: Self)
        ensures
            r@ == Seq::<u8>::empty(),
    {
        ChecksumStream { data: Vec::new() }
    }

    /// Append bytes to the stream.
    pub fn update(&mut self, data: &[u8])
        ensures
            final(self)@ == old(self)@ + data@,
    {
        self.data.extend_from_slice(data);
    }

    /// Compute the checksum of everything accumulated.
    pub fn finalize(self) -> (r: u128)
        ensures
            r == mac_of(self@),
    {
        checksum(self.data.as_slice())
    }
}

impl Default for ChecksumStream {
    fn default() -> (r: Self)
        ensures
            r@ == Seq::<u8>::empty(),
    {
        ChecksumStream::new()
    }
}

} // verus!
