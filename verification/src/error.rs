//! What can go wrong when a token is made, taken apart or validated.

use crate::base64url::DecodeError;
use vstd::prelude::*;

verus! {

/// The error of `serde_json`, carried as it came.
#[verifier::external_type_specification]
#[verifier::external_body]
pub struct ExJsonError(serde_json::Error);

/// The error of `serde_cbor`, carried as it came.
#[verifier::external_type_specification]
#[verifier::external_body]
pub struct ExCborError(serde_cbor::Error);

/// Why a token could not be made. Each of these means that the caller's header or claims
/// cannot be written in the encoding asked for.
#[derive(Debug)]
pub enum CreationError {
    /// The header could not be encoded.
    Header(serde_json::Error),
    /// The claims could not be encoded as a structured-object text.
    Claims(serde_json::Error),
    /// The claims could not be encoded as a binary map.
    CborClaims(serde_cbor::Error),
}

/// Why a text is no token.
#[derive(Debug)]
pub enum ParseError {
    /// The text does not consist of three segments.
    InvalidTokenStructure,
    /// A segment is not base64url.
    Base64(DecodeError),
    /// The header segment does not hold a header.
    MalformedHeader(serde_json::Error),
    /// The header names an encoding of the claims that is not known; the name is carried.
    UnsupportedContentType(String),
}

/// Why a token was not accepted.
#[derive(Debug)]
pub enum ValidationError {
    /// The token names another algorithm than the one it is validated with.
    AlgorithmMismatch,
    /// The signature segment does not hold a signature of the algorithm; the reason that
    /// the algorithm gave is carried.
    MalformedSignature(String),
    /// The signature does not belong to the token under the key.
    InvalidSignature,
    /// The claims segment does not hold claims as a structured-object text.
    MalformedClaims(serde_json::Error),
    /// The claims segment does not hold claims as a binary map.
    MalformedCborClaims(serde_cbor::Error),
    /// The token has expired.
    Expired,
    /// The token is not valid yet.
    NotMature,
}

} // verus!
