//! A token in its two states: taken apart but not trusted, and validated.

use crate::base64url::{decode, decoded, DecodeError};
use crate::buffer::SignatureBytes;
use crate::claims::Claims;
use crate::error::ParseError;
use crate::header::{content_type_of, tag_bytes, CompleteHeader, ContentType, Header};
use crate::wire::{
    claims_segment, header_segment, separators, signature_segment, signed_span, split,
};
use vstd::prelude::*;
use vstd::utf8::encode_utf8;

verus! {

/// A token that was taken apart and not validated.
///
/// It shows its header and the name of the algorithm that it claims, so that a caller can
/// choose a verifying key. Its claims stay bytes until the token is validated: how they are
/// encoded is itself a claim of the header. It borrows the signed span from the text that
/// it was made from, and lives no longer than that text.
#[derive(Debug, Clone)]
pub struct UntrustedToken<'a> {
    signed_data: &'a [u8],
    header: Header,
    algorithm: String,
    content_type: ContentType,
    serialized_claims: Vec<u8>,
    signature: SignatureBytes,
}

/// What an [`UntrustedToken`] holds.
pub ghost struct UntrustedTokenView {
    /// The first two segments of the text with their separator, as they stood in it.
    pub signed_data: Seq<u8>,
    /// The issuer's fields of the header.
    pub header: Header,
    /// The name of the algorithm that the header gives.
    pub algorithm: Seq<char>,
    /// The encoding of the claims that the header gives.
    pub content_type: ContentType,
    /// The decoded claims segment.
    pub serialized_claims: Seq<u8>,
    /// The decoded signature segment.
    pub signature: Seq<u8>,
}

impl<'a> View for UntrustedToken<'a> {
    type V = UntrustedTokenView;

    closed spec fn view(&self) -> UntrustedTokenView {
        UntrustedTokenView {
            signed_data: self.signed_data@,
            header: self.header,
            algorithm: self.algorithm@,
            content_type: self.content_type,
            serialized_claims: self.serialized_claims@,
            signature: self.signature@,
        }
    }
}

/// A token whose integrity was validated: its header and its claims.
#[derive(Debug, Clone)]
pub struct Token<T> {
    header: Header,
    claims: Claims<T>,
}

/// Handing `bytes` to the reader `read` may come out as `outcome`.
pub open spec fn read_as<V, E, F: FnOnce(&[u8]) -> Result<V, E>>(
    read: F,
    bytes: Seq<u8>,
    outcome: Result<V, E>,
) -> bool {
    exists|b: &[u8]| b@ == bytes && #[trigger] call_ensures(read, (b,), outcome)
}

/// The first error that decoding the segments of `text` meets: the header segment comes
/// first, then the claims, then the signature.
pub open spec fn decode_failure(text: Seq<u8>) -> Option<DecodeError> {
    match decoded(header_segment(text)) {
        Err(e) => Some(e),
        Ok(_) => match decoded(claims_segment(text)) {
            Err(e) => Some(e),
            Ok(_) => match decoded(signature_segment(text)) {
                Err(e) => Some(e),
                Ok(_) => None,
            },
        },
    }
}

/// The bytes that the header segment of `text` decodes to.
pub open spec fn header_bytes(text: Seq<u8>) -> Seq<u8> {
    decoded(header_segment(text)).unwrap()
}

/// `text` has three segments, and each of them decodes.
pub open spec fn is_well_formed(text: Seq<u8>) -> bool {
    separators(text) == 2 && decode_failure(text) is None
}

/// `token` is what `text` comes apart into, where reading the header gave `complete`.
pub open spec fn is_parsed(
    text: Seq<u8>,
    complete: CompleteHeader,
    token: UntrustedTokenView,
) -> bool {
    &&& token.signed_data == signed_span(text)
    &&& token.header == complete.inner
    &&& token.algorithm == complete.algorithm@
    &&& content_type_of(tag_bytes(complete.content_type)) == Some(token.content_type)
    &&& decoded(claims_segment(text)) == Ok::<Seq<u8>, DecodeError>(token.serialized_claims)
    &&& decoded(signature_segment(text)) == Ok::<Seq<u8>, DecodeError>(token.signature)
}

/// What taking `text` apart may come out as, with `read_header` to read the header.
///
/// A token comes out where `text` has three segments that decode, the header reads, and
/// the content type that it names is known. Otherwise the first of these that fails
/// decides the error; of the segments, the first that does not decode.
pub open spec fn parsed_as<'a, H: FnOnce(&[u8]) -> Result<CompleteHeader, serde_json::Error>>(
    text: Seq<u8>,
    read_header: H,
    r: Result<UntrustedToken<'a>, ParseError>,
) -> bool {
    match r {
        Ok(token) => is_well_formed(text) && exists|complete: CompleteHeader|
            #[trigger] read_as(read_header, header_bytes(text), Ok(complete)) && is_parsed(
                text,
                complete,
                token@,
            ),
        Err(ParseError::InvalidTokenStructure) => separators(text) != 2,
        Err(ParseError::Base64(e)) => separators(text) == 2 && decode_failure(text) == Some(e),
        Err(ParseError::MalformedHeader(e)) => is_well_formed(text) && read_as(
            read_header,
            header_bytes(text),
            Err(e),
        ),
        Err(ParseError::UnsupportedContentType(tag)) => is_well_formed(text) && exists|
            complete: CompleteHeader,
        |
            #[trigger] read_as(read_header, header_bytes(text), Ok(complete))
                && complete.content_type == Some(tag) && content_type_of(
                tag_bytes(complete.content_type),
            ) is None,
    }
}

impl<'a> UntrustedToken<'a> {
    /// Takes the text of a token apart.
    ///
    /// The text must consist of three segments, each of them base64url. The header segment
    /// is handed to `read_header`, which reads it as a header; the content type that the
    /// header names must be a known one. Nothing of what comes out is trusted yet.
    pub fn try_from<H>(s: &'a str, read_header: H) -> (r: Result<Self, ParseError>) where
        H: FnOnce(&[u8]) -> Result<CompleteHeader, serde_json::Error>,

        requires
            encode_utf8(s@).len() + 7 <= usize::MAX,
            forall|b: &[u8]| call_requires(read_header, (b,)),
        ensures
            parsed_as(encode_utf8(s@), read_header, r),
    {
        let text = s.as_bytes();
        let segments = match split(text) {
            Some(segments) => segments,
            None => {
                return Err(ParseError::InvalidTokenStructure);
            },
        };
        let header = match decode(segments.header) {
            Ok(bytes) => bytes,
            Err(e) => {
                return Err(ParseError::Base64(e));
            },
        };
        let serialized_claims = match decode(segments.claims) {
            Ok(bytes) => bytes,
            Err(e) => {
                return Err(ParseError::Base64(e));
            },
        };
        let signature = match SignatureBytes::decode(segments.signature) {
            Ok(bytes) => bytes,
            Err(e) => {
                return Err(ParseError::Base64(e));
            },
        };
        let complete = match read_header(header.as_slice()) {
            Ok(complete) => complete,
            Err(e) => {
                return Err(ParseError::MalformedHeader(e));
            },
        };
        let ghost seen = complete;
        assert(read_as(read_header, header_bytes(encode_utf8(s@)), Ok(seen)));
        let content_type = match ContentType::from_tag(complete.content_type) {
            Ok(content_type) => content_type,
            Err(tag) => {
                return Err(ParseError::UnsupportedContentType(tag));
            },
        };
        let token = UntrustedToken {
            signed_data: segments.signed_data,
            header: complete.inner,
            algorithm: complete.algorithm,
            content_type,
            serialized_claims,
            signature,
        };
        assert(is_parsed(encode_utf8(s@), seen, token@));
        Ok(token)
    }

    /// The issuer's fields of the header.
    pub fn header(&self) -> (r: &Header)
        ensures
            *r == self@.header,
    {
        &self.header
    }

    pub(crate) fn signed_bytes(&self) -> (r: &[u8])
        ensures
            r@ == self@.signed_data,
    {
        self.signed_data
    }

    pub(crate) fn claims_bytes(&self) -> (r: &[u8])
        ensures
            r@ == self@.serialized_claims,
    {
        self.serialized_claims.as_slice()
    }

    pub(crate) fn signature_bytes(&self) -> (r: &[u8])
        ensures
            r@ == self@.signature,
    {
        self.signature.as_slice()
    }

    pub(crate) fn content_type(&self) -> (r: ContentType)
        ensures
            r == self@.content_type,
    {
        self.content_type
    }

    /// The name of the algorithm that the header gives.
    pub fn algorithm(&self) -> (r: &str)
        ensures
            r@ == self@.algorithm,
    {
        self.algorithm.as_str()
    }
}

impl<T> Token<T> {
    /// The header that stands in the token.
    pub closed spec fn spec_header(&self) -> Header {
        self.header
    }

    /// The claims that stand in the token.
    pub closed spec fn spec_claims(&self) -> Claims<T> {
        self.claims
    }

    pub(crate) fn new(header: Header, claims: Claims<T>) -> (r: Self)
        ensures
            r.spec_header() == header,
            r.spec_claims() == claims,
    {
        Token { header, claims }
    }

    /// The header of the token.
    pub fn header(&self) -> (r: &Header)
        ensures
            *r == self.spec_header(),
    {
        &self.header
    }

    /// The claims of the token.
    pub fn claims(&self) -> (r: &Claims<T>)
        ensures
            *r == self.spec_claims(),
    {
        &self.claims
    }
}

} // verus!
