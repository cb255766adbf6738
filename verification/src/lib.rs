//! Compact signed tokens: a header and a claim set, each in base64url, joined by dots and
//! signed by an algorithm that the caller names at both ends.
//!
//! Issuing goes through [`AlgorithmExt::token`] and [`AlgorithmExt::compact_token`].
//! Reading is in two stages: [`UntrustedToken::try_from`] takes the text apart without
//! trusting it, and [`AlgorithmExt::validate_integrity`] turns the result into a [`Token`]
//! once the signature has been checked against the algorithm and key of the caller's choice.
//! The name of the algorithm is never the issuer's to set: it is stamped on the header when
//! a token is issued and compared when one is validated. What a validated token claims can
//! then be checked against the time with [`Claims::validate_expiration`] and
//! [`Claims::validate_maturity`].
//!
//! The library does not sign, does not encode structured objects and does not read the
//! clock. An algorithm is whatever implements [`Algorithm`]; the writers and readers of
//! headers and claims, and the clock, are functions that the caller hands in. Contracts
//! speak of what these may give, and the module [`laws`] states what follows where they
//! behave: a token that is issued comes apart and validates to what went into it.
//!
//! The segments are transcoded by the `base64` crate, and the signature bytes are held in
//! a `smallvec::SmallVec`; the modules [`base64url`] and [`buffer`] say what is taken on
//! trust about the two.

pub mod algorithm;
pub mod base64url;
pub mod buffer;
pub mod claims;
pub mod codec;
pub mod error;
pub mod header;
pub mod laws;
pub mod token;
pub mod wire;
pub mod prelude;

pub use crate::algorithm::{Algorithm, AlgorithmSignature};
pub use crate::claims::{Claims, Empty, TimeOptions};
pub use crate::codec::AlgorithmExt;
pub use crate::error::{CreationError, ParseError, ValidationError};
pub use crate::header::{CompleteHeader, ContentType, Header};
pub use crate::token::{Token, UntrustedToken};
