//! What a signature algorithm has to offer.

use std::borrow::Cow;
use vstd::prelude::*;

verus! {

/// The signature of an [`Algorithm`]: a value that can be written as bytes and read back.
pub trait AlgorithmSignature: Sized {
    /// Reads a signature from its bytes. Fails, with the reason, where the bytes do not
    /// have the shape of a signature, whatever message or key they may belong to.
    fn try_from_slice(slice: &[u8]) -> Result<Self, String>;

    /// The bytes of the signature.
    fn as_bytes(&self) -> Cow<'_, [u8]>;
}

/// A signature algorithm, with the types of its keys and of its signatures.
pub trait Algorithm {
    /// The key that signs.
    type SigningKey;

    /// The key that verifies; the signing key itself where the algorithm is symmetric.
    type VerifyingKey;

    /// What signing gives.
    type Signature: AlgorithmSignature;

    /// The name that the algorithm goes by in the `alg` field of a header.
    const NAME: &'static str;

    /// Signs `message` with `signing_key`.
    fn sign(&self, signing_key: &Self::SigningKey, message: &[u8]) -> Self::Signature;

    /// Says whether `signature` belongs to `message` under `verifying_key`.
    fn verify_signature(
        &self,
        signature: &Self::Signature,
        verifying_key: &Self::VerifyingKey,
        message: &[u8],
    ) -> bool;
}

/// Signing `message` with `key` may give a signature whose bytes are `signature`.
pub open spec fn signs<A: Algorithm + ?Sized>(
    algorithm: &A,
    key: &A::SigningKey,
    message: Seq<u8>,
    signature: Seq<u8>,
) -> bool {
    exists|m: &[u8], s: A::Signature, b: Cow<'_, [u8]>|
        #![trigger
            call_ensures(A::sign, (algorithm, key, m), s),
            call_ensures(A::Signature::as_bytes, (&s,), b),
        ]
        {
            &&& m@ == message
            &&& call_ensures(A::sign, (algorithm, key, m), s)
            &&& call_ensures(A::Signature::as_bytes, (&s,), b)
            &&& b@ == signature
        }
}

/// The bytes `signature` may be read as a signature.
pub open spec fn reads<A: Algorithm + ?Sized>(signature: Seq<u8>, read: A::Signature) -> bool {
    exists|b: &[u8]|
        b@ == signature && #[trigger] call_ensures(A::Signature::try_from_slice, (b,), Ok(read))
}

/// Reading the bytes `signature` as a signature may fail with `reason`.
pub open spec fn misreads<A: Algorithm + ?Sized>(signature: Seq<u8>, reason: String) -> bool {
    exists|b: &[u8]|
        b@ == signature && #[trigger] call_ensures(
            A::Signature::try_from_slice,
            (b,),
            Err(reason),
        )
}

/// Verifying `read` against `message` under `key` may give `verdict`.
pub open spec fn judges<A: Algorithm + ?Sized>(
    algorithm: &A,
    read: A::Signature,
    key: &A::VerifyingKey,
    message: Seq<u8>,
    verdict: bool,
) -> bool {
    exists|m: &[u8]|
        m@ == message && #[trigger] call_ensures(
            A::verify_signature,
            (algorithm, &read, key, m),
            verdict,
        )
}

} // verus!
