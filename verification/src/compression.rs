//! The response-compression encoding tokens.
//!
//! Compressing the response body is middleware work outside this library;
//! what belongs here is the encoding taxonomy and the parsing of its
//! tokens.

use vstd::prelude::*;

use crate::error::{SnapError, SnapResult};
use crate::format_tran::{eq_ignore_ascii_case, spec_eq_ignore_case};

verus! {

/// A response-compression encoding.
#[derive(Debug, Clone, Copy, PartialEq, Eq, Structural)]
pub enum EncodeType {
    Deflate,
    Gzip,
    Brotli,
}

/// Which encoding a token names, up to ASCII case. Brotli is named by its
/// wire token `br` alone; its spelled-out name is not accepted.
pub open spec fn spec_parse_encode_type(s: Seq<char>) -> Option<EncodeType> {
    if spec_eq_ignore_case(s, "deflate"@) {
        Some(EncodeType::Deflate)
    } else if spec_eq_ignore_case(s, "gzip"@) {
        Some(EncodeType::Gzip)
    } else if spec_eq_ignore_case(s, "br"@) {
        Some(EncodeType::Brotli)
    } else {
        None
    }
}

impl EncodeType {
    /// Parses an encoding token, case-insensitively.
    pub fn from_str(s: &str) -> (r: SnapResult<EncodeType>)
        ensures
            match spec_parse_encode_type(s@) {
                Some(e) => r == Ok::<EncodeType, SnapError>(e),
                None => r == Err::<EncodeType, SnapError>(SnapError::FormatError),
            },
    {
        if eq_ignore_ascii_case(s, "deflate") {
            Ok(EncodeType::Deflate)
        } else if eq_ignore_ascii_case(s, "gzip") {
            Ok(EncodeType::Gzip)
        } else if eq_ignore_ascii_case(s, "br") {
            Ok(EncodeType::Brotli)
        } else {
            Err(SnapError::FormatError)
        }
    }

    /// The canonical wire token of the encoding.
    pub fn token(&self) -> (r: &'static str)
        ensures
            self is Deflate ==> r@ == "deflate"@,
            self is Gzip ==> r@ == "gzip"@,
            self is Brotli ==> r@ == "br"@,
    {
        match self {
            EncodeType::Deflate => "deflate",
            EncodeType::Gzip => "gzip",
            EncodeType::Brotli => "br",
        }
    }
}

} // verus!
