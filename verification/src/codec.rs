//! Issuing tokens and validating their integrity, for every [`Algorithm`].

use crate::algorithm::{judges, misreads, reads, signs, Algorithm, AlgorithmSignature};
use crate::base64url::{
    ascii_bytes, decoded, encode_onto, encoded, is_encoding, lemma_symbols, DecodeError,
};
use crate::claims::Claims;
use crate::error::{CreationError, ValidationError};
use crate::header::{is_stamped, CompleteHeader, ContentType, Header};
use crate::token::{is_well_formed, read_as, Token, UntrustedToken, UntrustedTokenView};
use crate::wire::{
    claims_segment, dotted, header_segment, joined, lemma_frames, signature_segment,
    signed_span,
};
use std::borrow::Cow;
use vstd::prelude::*;
use vstd::string::{StringExecFns, StringSliceAdditionalSpecFns};
use vstd::utf8::{encode_utf8, encode_utf8_decode_utf8, is_ascii_chars, is_ascii_chars_encode_utf8};

verus! {

/// The text that a signature is made over: the encoded header and the encoded claims with
/// a dot between them.
pub open spec fn signing_text(header: Seq<u8>, claims: Seq<u8>) -> Seq<char> {
    encoded(header) + seq!['.'] + encoded(claims)
}

/// The text of a token: the signing text and the encoded signature with a dot between them.
pub open spec fn token_text(header: Seq<u8>, claims: Seq<u8>, signature: Seq<u8>) -> Seq<char> {
    signing_text(header, claims) + seq!['.'] + encoded(signature)
}

/// `text` comes apart into three segments that decode to `header`, `claims` and
/// `signature`.
pub open spec fn carries(
    text: Seq<u8>,
    header: Seq<u8>,
    claims: Seq<u8>,
    signature: Seq<u8>,
) -> bool {
    &&& is_well_formed(text)
    &&& decoded(header_segment(text)) == Ok::<Seq<u8>, DecodeError>(header)
    &&& decoded(claims_segment(text)) == Ok::<Seq<u8>, DecodeError>(claims)
    &&& decoded(signature_segment(text)) == Ok::<Seq<u8>, DecodeError>(signature)
}

/// `text` is a token that `algorithm` issued under `key` for the encoded `header` and
/// `claims`: it is their token text with a signature that the algorithm gave for the
/// signing text, and it comes apart into just these parts, with the signing text as its
/// signed span.
pub open spec fn is_issued<A: Algorithm + ?Sized>(
    algorithm: &A,
    key: &A::SigningKey,
    header: Seq<u8>,
    claims: Seq<u8>,
    text: Seq<char>,
) -> bool {
    exists|signature: Seq<u8>|
        {
            &&& text == token_text(header, claims, signature)
            &&& #[trigger] signs(
                algorithm,
                key,
                ascii_bytes(signing_text(header, claims)),
                signature,
            )
            &&& signed_span(encode_utf8(text)) == ascii_bytes(signing_text(header, claims))
            &&& carries(encode_utf8(text), header, claims, signature)
        }
}

/// Handing the header `inner`, with the name `algorithm` and the tag `content_type` put
/// around it, to the writer `write_header` may come out as `outcome`.
pub open spec fn header_written<H: FnOnce(&CompleteHeader) -> Result<String, serde_json::Error>>(
    write_header: H,
    algorithm: Seq<char>,
    content_type: Option<Seq<char>>,
    inner: Header,
    outcome: Result<String, serde_json::Error>,
) -> bool {
    exists|complete: CompleteHeader|
        is_stamped(complete, algorithm, content_type, inner) && #[trigger] call_ensures(
            write_header,
            (&complete,),
            outcome,
        )
}

/// Reading the claims of `token`, in the encoding that it names, may give `claims`.
pub open spec fn claims_read<
    T,
    J: FnOnce(&[u8]) -> Result<Claims<T>, serde_json::Error>,
    C: FnOnce(&[u8]) -> Result<Claims<T>, serde_cbor::Error>,
>(token: UntrustedTokenView, read_json: J, read_cbor: C, claims: Claims<T>) -> bool {
    match token.content_type {
        ContentType::Json => read_as(read_json, token.serialized_claims, Ok(claims)),
        ContentType::Cbor => read_as(read_cbor, token.serialized_claims, Ok(claims)),
    }
}

/// The signature bytes of `token` may read as a signature for which verifying against
/// the signed span of `token` under `key` may give `verdict`.
pub open spec fn is_signed<A: Algorithm + ?Sized>(
    algorithm: &A,
    token: UntrustedTokenView,
    key: &A::VerifyingKey,
    verdict: bool,
) -> bool {
    exists|signature: A::Signature|
        {
            &&& #[trigger] reads::<A>(token.signature, signature)
            &&& judges(algorithm, signature, key, token.signed_data, verdict)
        }
}

/// What issuing a token with structured-object claims may come out as.
///
/// The token comes out where both writers succeed: it is issued for what they gave. The
/// header is written first, with the name of the algorithm and without a content type; a
/// writer that fails decides the error.
pub open spec fn issued_as<
    A: Algorithm + ?Sized,
    T,
    H: FnOnce(&CompleteHeader) -> Result<String, serde_json::Error>,
    C: FnOnce(&Claims<T>) -> Result<String, serde_json::Error>,
>(
    algorithm: &A,
    signing_key: &A::SigningKey,
    header: Header,
    claims: &Claims<T>,
    write_header: H,
    write_claims: C,
    r: Result<String, CreationError>,
) -> bool {
    match r {
        Ok(text) => exists|header_text: String, claims_text: String|
            #![trigger encode_utf8(header_text@), encode_utf8(claims_text@)]
            {
                &&& header_written(
                    write_header,
                    A::NAME@,
                    None,
                    header,
                    Ok(header_text),
                )
                &&& call_ensures(write_claims, (claims,), Ok(claims_text))
                &&& is_issued(
                    algorithm,
                    signing_key,
                    encode_utf8(header_text@),
                    encode_utf8(claims_text@),
                    text@,
                )
            },
        Err(CreationError::Header(e)) => header_written(
            write_header,
            A::NAME@,
            None,
            header,
            Err(e),
        ),
        Err(CreationError::Claims(e)) => {
            &&& exists|header_text: String| #[trigger]
                header_written(write_header, A::NAME@, None, header, Ok(header_text))
            &&& call_ensures(write_claims, (claims,), Err::<String, serde_json::Error>(e))
        },
        Err(CreationError::CborClaims(_)) => false,
    }
}

/// What issuing a token with binary-map claims may come out as.
///
/// As [`issued_as`], with the content type `CBOR` in the header and the claims as the
/// bytes that their writer gave.
pub open spec fn compact_issued_as<
    A: Algorithm + ?Sized,
    T,
    H: FnOnce(&CompleteHeader) -> Result<String, serde_json::Error>,
    C: FnOnce(&Claims<T>) -> Result<Vec<u8>, serde_cbor::Error>,
>(
    algorithm: &A,
    signing_key: &A::SigningKey,
    header: Header,
    claims: &Claims<T>,
    write_header: H,
    write_claims: C,
    r: Result<String, CreationError>,
) -> bool {
    match r {
        Ok(text) => exists|header_text: String, claims_bytes: Vec<u8>|
            #![trigger encode_utf8(header_text@), claims_bytes@]
            {
                &&& header_written(
                    write_header,
                    A::NAME@,
                    Some("CBOR"@),
                    header,
                    Ok(header_text),
                )
                &&& call_ensures(write_claims, (claims,), Ok(claims_bytes))
                &&& is_issued(
                    algorithm,
                    signing_key,
                    encode_utf8(header_text@),
                    claims_bytes@,
                    text@,
                )
            },
        Err(CreationError::Header(e)) => header_written(
            write_header,
            A::NAME@,
            Some("CBOR"@),
            header,
            Err(e),
        ),
        Err(CreationError::Claims(_)) => false,
        Err(CreationError::CborClaims(e)) => {
            &&& exists|header_text: String| #[trigger]
                header_written(
                    write_header,
                    A::NAME@,
                    Some("CBOR"@),
                    header,
                    Ok(header_text),
                )
            &&& call_ensures(
                write_claims,
                (claims,),
                Err::<Vec<u8>, serde_cbor::Error>(e),
            )
        },
    }
}

/// What validating the integrity of `token` may come out as.
///
/// A validated token comes out, with the header of `token` and the claims that were read,
/// where `token` names the algorithm, its signature bytes read as a signature, its claims
/// read in the encoding that it names, and the algorithm accepts the signature for the
/// signed span under `verifying_key`. Otherwise the first of these that fails, in this
/// order, decides the error.
pub open spec fn validated_as<
    A: Algorithm + ?Sized,
    T,
    J: FnOnce(&[u8]) -> Result<Claims<T>, serde_json::Error>,
    C: FnOnce(&[u8]) -> Result<Claims<T>, serde_cbor::Error>,
>(
    algorithm: &A,
    token: UntrustedTokenView,
    verifying_key: &A::VerifyingKey,
    read_json: J,
    read_cbor: C,
    r: Result<Token<T>, ValidationError>,
) -> bool {
    match r {
        Ok(valid) => {
            &&& token.algorithm == A::NAME@
            &&& valid.spec_header() == token.header
            &&& claims_read(token, read_json, read_cbor, valid.spec_claims())
            &&& is_signed(algorithm, token, verifying_key, true)
        },
        Err(ValidationError::AlgorithmMismatch) => token.algorithm != A::NAME@,
        Err(ValidationError::MalformedSignature(reason)) => {
            &&& token.algorithm == A::NAME@
            &&& misreads::<A>(token.signature, reason)
        },
        Err(ValidationError::MalformedClaims(e)) => {
            &&& token.algorithm == A::NAME@
            &&& exists|signature: A::Signature| #[trigger]
                reads::<A>(token.signature, signature)
            &&& token.content_type == ContentType::Json
            &&& read_as(read_json, token.serialized_claims, Err(e))
        },
        Err(ValidationError::MalformedCborClaims(e)) => {
            &&& token.algorithm == A::NAME@
            &&& exists|signature: A::Signature| #[trigger]
                reads::<A>(token.signature, signature)
            &&& token.content_type == ContentType::Cbor
            &&& read_as(read_cbor, token.serialized_claims, Err(e))
        },
        Err(ValidationError::InvalidSignature) => {
            &&& token.algorithm == A::NAME@
            &&& exists|claims: Claims<T>| #[trigger]
                claims_read(token, read_json, read_cbor, claims)
            &&& is_signed(algorithm, token, verifying_key, false)
        },
        Err(ValidationError::Expired) => false,
        Err(ValidationError::NotMature) => false,
    }
}

/// Compares two texts.
pub fn same_text(left: &str, right: &str) -> (r: bool)
    ensures
        r == (left@ == right@),
{
    let a = left.as_bytes();
    let b = right.as_bytes();
    proof {
        encode_utf8_decode_utf8(left@);
        encode_utf8_decode_utf8(right@);
    }
    if a.len() != b.len() {
        return false;
    }
    let mut at: usize = 0;
    while at < a.len()
        invariant
            a@ == left.spec_bytes(),
            b@ == right.spec_bytes(),
            a@.len() == b@.len(),
            at <= a@.len(),
            forall|i: int| 0 <= i < at ==> a@[i] == b@[i],
        decreases a@.len() - at,
    {
        if a[at] != b[at] {
            return false;
        }
        at = at + 1;
    }
    assert(a@ =~= b@);
    true
}

fn append_dot(text: &mut String)
    ensures
        final(text)@ == old(text)@ + seq!['.'],
{
    proof {
        reveal_strlit(".");
    }
    text.append(".");
    assert(final(text)@ =~= old(text)@ + seq!['.']);
}

fn bytes_of<'a>(bytes: &'a Cow<'a, [u8]>) -> (r: &'a [u8])
    ensures
        r@ == bytes@,
{
    match bytes {
        Cow::Borrowed(slice) => slice,
        Cow::Owned(vec) => vec.as_slice(),
    }
}

/// The token text of three parts is made of one-byte characters; its bytes are the three
/// encodings joined, and they come apart into just these parts.
proof fn lemma_token_text(header: Seq<u8>, claims: Seq<u8>, signature: Seq<u8>)
    requires
        is_encoding(encoded(header), header),
        is_encoding(encoded(claims), claims),
        is_encoding(encoded(signature), signature),
    ensures
        is_ascii_chars(signing_text(header, claims)),
        encode_utf8(signing_text(header, claims)) == ascii_bytes(signing_text(header, claims)),
        signed_span(encode_utf8(token_text(header, claims, signature))) == ascii_bytes(
            signing_text(header, claims),
        ),
        carries(encode_utf8(token_text(header, claims, signature)), header, claims, signature),
{
    let h = encoded(header);
    let c = encoded(claims);
    let g = encoded(signature);
    lemma_symbols(h);
    lemma_symbols(c);
    lemma_symbols(g);
    let front = signing_text(header, claims);
    let whole = token_text(header, claims, signature);
    assert(is_ascii_chars(front));
    assert(is_ascii_chars(whole));
    is_ascii_chars_encode_utf8(front);
    is_ascii_chars_encode_utf8(whole);
    assert(encode_utf8(front) =~= ascii_bytes(front));
    assert(encode_utf8(whole) =~= ascii_bytes(whole));
    assert(ascii_bytes(front) =~= dotted(ascii_bytes(h), ascii_bytes(c)));
    assert(ascii_bytes(whole) =~= joined(ascii_bytes(h), ascii_bytes(c), ascii_bytes(g)));
    lemma_frames(ascii_bytes(whole), ascii_bytes(h), ascii_bytes(c), ascii_bytes(g));
}

/// Encodes the two parts, signs them and puts the token together.
fn issue<A: Algorithm>(
    algorithm: &A,
    signing_key: &A::SigningKey,
    header: &[u8],
    claims: &[u8],
) -> (text: String)
    ensures
        is_issued(algorithm, signing_key, header@, claims@, text@),
{
    let mut text = String::new();
    encode_onto(header, &mut text);
    assert(text@.skip(0) =~= text@);
    assert(text@ =~= encoded(header@));
    append_dot(&mut text);
    let ghost dotted_header = text@;
    encode_onto(claims, &mut text);
    assert(text@.skip(dotted_header.len() as int) =~= encoded(claims@));
    let ghost front = text@;
    assert(front == signing_text(header@, claims@));
    let message = text.as_str().as_bytes();
    let signature = algorithm.sign(signing_key, message);
    let written = signature.as_bytes();
    let bytes = bytes_of(&written);
    append_dot(&mut text);
    let ghost dotted_front = text@;
    encode_onto(bytes, &mut text);
    assert(text@.skip(dotted_front.len() as int) =~= encoded(bytes@));
    proof {
        lemma_token_text(header@, claims@, bytes@);
        assert(text@ == token_text(header@, claims@, bytes@));
        assert(message@ == ascii_bytes(signing_text(header@, claims@)));
        assert(signs(algorithm, signing_key, ascii_bytes(signing_text(header@, claims@)), bytes@));
    }
    text
}

/// What every [`Algorithm`] can do with tokens.
pub trait AlgorithmExt: Algorithm {
    /// Issues a token whose claims are a structured-object text.
    ///
    /// The header goes out with the name of this algorithm and without a content type.
    /// `write_header` and `write_claims` encode it and the claims; what they give is
    /// encoded in base64url, the two encodings with a dot between them are signed with
    /// `signing_key`, and the signature is put behind a second dot.
    fn token<T, H, C>(
        &self,
        header: Header,
        claims: &Claims<T>,
        signing_key: &Self::SigningKey,
        write_header: H,
        write_claims: C,
    ) -> (r: Result<String, CreationError>) where
        H: FnOnce(&CompleteHeader) -> Result<String, serde_json::Error>,
        C: FnOnce(&Claims<T>) -> Result<String, serde_json::Error>,

        requires
            forall|complete: CompleteHeader|
                is_stamped(complete, Self::NAME@, None, header) ==> call_requires(
                    write_header,
                    (&complete,),
                ),
            call_requires(write_claims, (claims,)),
        ensures
            issued_as(self, signing_key, header, claims, write_header, write_claims, r),
    ;

    /// Issues a token whose claims are a binary map.
    ///
    /// As [`token`](AlgorithmExt::token), but the header names the content type `CBOR`,
    /// and `write_claims` gives the claims as bytes.
    fn compact_token<T, H, C>(
        &self,
        header: Header,
        claims: &Claims<T>,
        signing_key: &Self::SigningKey,
        write_header: H,
        write_claims: C,
    ) -> (r: Result<String, CreationError>) where
        H: FnOnce(&CompleteHeader) -> Result<String, serde_json::Error>,
        C: FnOnce(&Claims<T>) -> Result<Vec<u8>, serde_cbor::Error>,

        requires
            forall|complete: CompleteHeader|
                is_stamped(complete, Self::NAME@, Some("CBOR"@), header) ==> call_requires(
                    write_header,
                    (&complete,),
                ),
            call_requires(write_claims, (claims,)),
        ensures
            compact_issued_as(self, signing_key, header, claims, write_header, write_claims, r),
    ;

    /// Validates the integrity of `token` against `verifying_key`.
    ///
    /// In this order: the token must name this algorithm; its signature bytes must read as
    /// a signature of this algorithm; its claims must read in the encoding that its header
    /// names, through `read_json` or `read_cbor`; and the signature must belong to the
    /// signed span of the token under `verifying_key`. The first of these that fails
    /// decides the error. The caller, never the token, chooses the algorithm and the key.
    fn validate_integrity<T, J, C>(
        &self,
        token: &UntrustedToken,
        verifying_key: &Self::VerifyingKey,
        read_json: J,
        read_cbor: C,
    ) -> (r: Result<Token<T>, ValidationError>) where
        J: FnOnce(&[u8]) -> Result<Claims<T>, serde_json::Error>,
        C: FnOnce(&[u8]) -> Result<Claims<T>, serde_cbor::Error>,

        requires
            forall|b: &[u8]|
                b@ == token@.serialized_claims ==> match token@.content_type {
                    ContentType::Json => call_requires(read_json, (b,)),
                    ContentType::Cbor => call_requires(read_cbor, (b,)),
                },
        ensures
            validated_as(self, token@, verifying_key, read_json, read_cbor, r),
    ;
}

impl<A: Algorithm> AlgorithmExt for A {
    fn token<T, H, C>(
        &self,
        header: Header,
        claims: &Claims<T>,
        signing_key: &Self::SigningKey,
        write_header: H,
        write_claims: C,
    ) -> (r: Result<String, CreationError>) where
        H: FnOnce(&CompleteHeader) -> Result<String, serde_json::Error>,
        C: FnOnce(&Claims<T>) -> Result<String, serde_json::Error>,
     {
        let complete = CompleteHeader::stamp(Self::NAME, None, header);
        let header_text = match write_header(&complete) {
            Ok(text) => text,
            Err(e) => {
                assert(header_written(write_header, Self::NAME@, None, header, Err(e))) by {
                    assert(call_ensures(
                        write_header,
                        (&complete,),
                        Err::<String, serde_json::Error>(e),
                    ));
                }
                return Err(CreationError::Header(e));
            },
        };
        assert(header_written(write_header, Self::NAME@, None, header, Ok(header_text))) by {
            assert(call_ensures(
                write_header,
                (&complete,),
                Ok::<String, serde_json::Error>(header_text),
            ));
        }
        let claims_text = match write_claims(claims) {
            Ok(text) => text,
            Err(e) => {
                return Err(CreationError::Claims(e));
            },
        };
        let text = issue(
            self,
            signing_key,
            header_text.as_str().as_bytes(),
            claims_text.as_str().as_bytes(),
        );
        assert(call_ensures(write_claims, (claims,), Ok::<String, serde_json::Error>(claims_text)));
        Ok(text)
    }

    fn compact_token<T, H, C>(
        &self,
        header: Header,
        claims: &Claims<T>,
        signing_key: &Self::SigningKey,
        write_header: H,
        write_claims: C,
    ) -> (r: Result<String, CreationError>) where
        H: FnOnce(&CompleteHeader) -> Result<String, serde_json::Error>,
        C: FnOnce(&Claims<T>) -> Result<Vec<u8>, serde_cbor::Error>,
     {
        let complete = CompleteHeader::stamp(Self::NAME, Some("CBOR"), header);
        let header_text = match write_header(&complete) {
            Ok(text) => text,
            Err(e) => {
                assert(header_written(write_header, Self::NAME@, Some("CBOR"@), header, Err(e)))
                    by {
                    assert(call_ensures(
                        write_header,
                        (&complete,),
                        Err::<String, serde_json::Error>(e),
                    ));
                }
                return Err(CreationError::Header(e));
            },
        };
        assert(header_written(write_header, Self::NAME@, Some("CBOR"@), header, Ok(header_text)))
            by {
            assert(call_ensures(
                write_header,
                (&complete,),
                Ok::<String, serde_json::Error>(header_text),
            ));
        }
        let claims_bytes = match write_claims(claims) {
            Ok(bytes) => bytes,
            Err(e) => {
                return Err(CreationError::CborClaims(e));
            },
        };
        let text = issue(
            self,
            signing_key,
            header_text.as_str().as_bytes(),
            claims_bytes.as_slice(),
        );
        assert(call_ensures(
            write_claims,
            (claims,),
            Ok::<Vec<u8>, serde_cbor::Error>(claims_bytes),
        ));
        Ok(text)
    }

    fn validate_integrity<T, J, C>(
        &self,
        token: &UntrustedToken,
        verifying_key: &Self::VerifyingKey,
        read_json: J,
        read_cbor: C,
    ) -> (r: Result<Token<T>, ValidationError>) where
        J: FnOnce(&[u8]) -> Result<Claims<T>, serde_json::Error>,
        C: FnOnce(&[u8]) -> Result<Claims<T>, serde_cbor::Error>,
     {
        if !same_text(Self::NAME, token.algorithm()) {
            return Err(ValidationError::AlgorithmMismatch);
        }
        let written = token.signature_bytes();
        let signature = match Self::Signature::try_from_slice(written) {
            Ok(signature) => signature,
            Err(reason) => {
                assert(call_ensures(
                    Self::Signature::try_from_slice,
                    (written,),
                    Err::<Self::Signature, String>(reason),
                ));
                return Err(ValidationError::MalformedSignature(reason));
            },
        };
        assert(reads::<Self>(token@.signature, signature)) by {
            assert(call_ensures(
                Self::Signature::try_from_slice,
                (written,),
                Ok::<Self::Signature, String>(signature),
            ));
        }
        let serialized = token.claims_bytes();
        let claims = match token.content_type() {
            ContentType::Json => match read_json(serialized) {
                Ok(claims) => claims,
                Err(e) => {
                    assert(call_ensures(
                        read_json,
                        (serialized,),
                        Err::<Claims<T>, serde_json::Error>(e),
                    ));
                    return Err(ValidationError::MalformedClaims(e));
                },
            },
            ContentType::Cbor => match read_cbor(serialized) {
                Ok(claims) => claims,
                Err(e) => {
                    assert(call_ensures(
                        read_cbor,
                        (serialized,),
                        Err::<Claims<T>, serde_cbor::Error>(e),
                    ));
                    return Err(ValidationError::MalformedCborClaims(e));
                },
            },
        };
        assert(claims_read(token@, read_json, read_cbor, claims)) by {
            if token@.content_type == ContentType::Json {
                assert(call_ensures(
                    read_json,
                    (serialized,),
                    Ok::<Claims<T>, serde_json::Error>(claims),
                ));
            } else {
                assert(call_ensures(
                    read_cbor,
                    (serialized,),
                    Ok::<Claims<T>, serde_cbor::Error>(claims),
                ));
            }
        }
        let message = token.signed_bytes();
        let verdict = self.verify_signature(&signature, verifying_key, message);
        assert(is_signed(self, token@, verifying_key, verdict)) by {
            assert(call_ensures(
                Self::verify_signature,
                (self, &signature, verifying_key, message),
                verdict,
            ));
            assert(judges(self, signature, verifying_key, token@.signed_data, verdict));
        }
        if !verdict {
            return Err(ValidationError::InvalidSignature);
        }
        Ok(Token::new(token.header().clone(), claims))
    }
}

} // verus!
