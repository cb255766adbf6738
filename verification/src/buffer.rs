//! The bytes of a signature, held without an allocation while they are few.

use crate::base64url::{decode_into, decoded, DecodeError};
use vstd::prelude::*;

verus! {

/// Signatures of up to this many bytes are held inline.
pub const SIGNATURE_SIZE: usize = 128;

/// The bytes of a signature.
///
/// Holds a `smallvec::SmallVec` with room for [`SIGNATURE_SIZE`] bytes inline, which moves
/// to the heap when it has to hold more. What it holds is [`held`]; its view is the same.
#[derive(Debug)]
#[verifier::external_body]
pub struct SignatureBytes {
    inner: smallvec::SmallVec<[u8; 128]>,
}

/// The bytes that a [`SignatureBytes`] holds, in order.
pub uninterp spec fn held(bytes: SignatureBytes) -> Seq<u8>;

impl View for SignatureBytes {
    type V = Seq<u8>;

    open spec fn view(&self) -> Seq<u8> {
        held(*self)
    }
}

fn copy_into(source: &[u8], target: &mut [u8])
    requires
        source@.len() == old(target)@.len(),
    ensures
        final(target)@ == source@,
{
    let mut at: usize = 0;
    while at < source.len()
        invariant
            source@.len() == target@.len(),
            at <= source@.len(),
            forall|i: int| 0 <= i < at ==> target@[i] == source@[i],
        decreases source@.len() - at,
    {
        target[at] = source[at];
        at = at + 1;
    }
    assert(target@ =~= source@);
}

impl Clone for SignatureBytes {
    /// A buffer of its own with the same bytes.
    fn clone(&self) -> (r: Self)
        ensures
            r@ == self@,
    {
        let bytes = self.as_slice();
        let mut copy = SignatureBytes::zeroed(bytes.len());
        copy_into(bytes, copy.as_mut_slice());
        copy
    }
}

impl SignatureBytes {
    /// Makes a buffer of `len` zero bytes.
    ///
    /// Calls `SmallVec::from_elem`, which gives `len` copies of the element.
    #[verifier::external_body]
    pub(crate) fn zeroed(len: usize) -> (r: Self)
        ensures
            held(r) == Seq::new(len as nat, |i: int| 0u8),
    {
        SignatureBytes { inner: smallvec::SmallVec::from_elem(0u8, len) }
    }

    /// Lends the bytes out for writing.
    ///
    /// Calls `SmallVec::as_mut_slice`, which is a slice of the whole vector: the buffer
    /// holds afterwards what was written to the slice.
    #[verifier::external_body]
    pub(crate) fn as_mut_slice(&mut self) -> (r: &mut [u8])
        ensures
            r@ == held(*old(self)),
            final(r)@ == held(*final(self)),
    {
        self.inner.as_mut_slice()
    }

    /// Drops the bytes from index `len` on.
    ///
    /// Calls `SmallVec::truncate`, which has no effect where `len` is not less than the
    /// length.
    #[verifier::external_body]
    pub(crate) fn truncate(&mut self, len: usize)
        ensures
            len <= held(*old(self)).len() ==> held(*final(self)) == held(*old(self)).take(
                len as int,
            ),
            len > held(*old(self)).len() ==> held(*final(self)) == held(*old(self)),
    {
        self.inner.truncate(len)
    }

    /// The bytes as a slice.
    ///
    /// Calls `SmallVec::as_slice`, which is a slice of the whole vector.
    #[verifier::external_body]
    pub(crate) fn as_slice(&self) -> (r: &[u8])
        ensures
            r@ == held(*self),
    {
        self.inner.as_slice()
    }

    /// Decodes the base64url `text` of a signature.
    pub fn decode(text: &[u8]) -> (r: Result<Self, DecodeError>)
        requires
            text@.len() + 7 <= usize::MAX,
        ensures
            match r {
                Ok(bytes) => decoded(text@) == Ok::<Seq<u8>, DecodeError>(bytes@),
                Err(e) => decoded(text@) == Err::<Seq<u8>, DecodeError>(e),
            },
    {
        let room: usize = (text.len() + 3) / 4 * 3;
        let mut bytes = SignatureBytes::zeroed(room);
        let written = decode_into(text, bytes.as_mut_slice());
        match written {
            Ok(n) => {
                bytes.truncate(n);
                Ok(bytes)
            },
            Err(e) => Err(e),
        }
    }
}

} // verus!
