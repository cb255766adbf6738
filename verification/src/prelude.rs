//! What a caller needs most of the time, in one import.

pub use crate::algorithm::Algorithm;
pub use crate::claims::{Claims, TimeOptions};
pub use crate::codec::AlgorithmExt;
pub use crate::header::Header;
pub use crate::token::{Token, UntrustedToken};
