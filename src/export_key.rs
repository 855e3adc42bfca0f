//! The client's export key.

use vstd::prelude::*;
use zeroize::Zeroize;

verus! {

/// Width of an export key in bytes.
pub const EXPORT_KEY_LEN: usize = 64;

/// A raw export key widened to [`EXPORT_KEY_LEN`] bytes: the key, then zeros.
pub open spec fn widened(raw: Seq<u8>) -> Seq<u8> {
    raw + Seq::new((EXPORT_KEY_LEN - raw.len()) as nat, |i: int| 0u8)
}

/// Secret derived from the password on the client; the server never sees
/// it. The same password under the same server record yields the same key.
/// Hash outputs shorter than 64 bytes are followed by zeros.
#[derive(Debug, PartialEq, Eq, Hash)]
pub struct ExportKey {
    key: Vec<u8>,
}

impl ExportKey {
    #[verifier::type_invariant]
    spec fn inv(self) -> bool {
        self.key@.len() == EXPORT_KEY_LEN
    }

    /// The 64 bytes of the key.
    pub closed spec fn spec_bytes(self) -> Seq<u8> {
        self.key@
    }

    /// Widens the export key that OPAQUE produced.
    pub(crate) fn new(raw: &[u8]) -> (r: Self)
        requires
            raw@.len() <= EXPORT_KEY_LEN,
        ensures
            r.spec_bytes() == widened(raw@),
    {
        let mut key: Vec<u8> = Vec::with_capacity(EXPORT_KEY_LEN);
        let mut i: usize = 0;
        while i < EXPORT_KEY_LEN
            invariant
                raw@.len() <= EXPORT_KEY_LEN,
                0 <= i <= EXPORT_KEY_LEN,
                key@ == widened(raw@).subrange(0, i as int),
            decreases EXPORT_KEY_LEN - i,
        {
            let b: u8 = if i < raw.len() { raw[i] } else { 0u8 };
            key.push(b);
            assert(key@ =~= widened(raw@).subrange(0, i as int + 1));
            i = i + 1;
        }
        assert(key@ =~= widened(raw@));
        ExportKey { key }
    }

    /// The 64 bytes of the key.
    pub fn as_bytes(&self) -> (r: &[u8])
        ensures
            r@ == self.spec_bytes(),
            r@.len() == EXPORT_KEY_LEN,
    {
        proof {
            use_type_invariant(self);
        }
        self.key.as_slice()
    }
}

/// Relies on `zeroize::Zeroize` for byte slices: every byte is overwritten
/// with zero in a way the compiler does not remove; the length is kept.
#[verifier::external_body]
fn wipe(bytes: &mut Vec<u8>)
    ensures
        final(bytes)@ == Seq::new(old(bytes)@.len(), |i: int| 0u8),
    opens_invariants none
    no_unwind
{
    bytes.as_mut_slice().zeroize();
}

impl Drop for ExportKey {
    /// Overwrites the key with zeros before its memory is released.
    fn drop(&mut self)
        opens_invariants none
        no_unwind
    {
        proof {
            use_type_invariant(&*self);
        }
        wipe(&mut self.key);
    }
}

impl AsRef<[u8]> for ExportKey {
    fn as_ref(&self) -> (r: &[u8])
        ensures
            r@ == self.spec_bytes(),
    {
        self.as_bytes()
    }
}

impl core::ops::Deref for ExportKey {
    type Target = [u8];

    fn deref(&self) -> (r: &[u8])
        ensures
            r@ == self.spec_bytes(),
    {
        self.as_bytes()
    }
}

impl Clone for ExportKey {
    fn clone(&self) -> (r: Self)
        ensures
            r.spec_bytes() == self.spec_bytes(),
    {
        proof {
            use_type_invariant(self);
        }
        ExportKey { key: crate::public_key::copy_bytes(self.key.as_slice()) }
    }
}

} // verus!
