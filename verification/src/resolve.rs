//! Resolving an IFD record's value: the record's `value_offset`, taken
//! relative to the TIFF header position, selects `count` bytes of the buffer,
//! which are rendered as a quoted UTF-8 string when possible and as a
//! diagnostic otherwise.

use crate::record::IFD;
use vstd::prelude::*;
use vstd::slice::slice_subrange;
use vstd::utf8::{decode_utf8, valid_utf8};

verus! {

/// Why a value could not be resolved; each variant carries a fixed
/// diagnostic rendering, never a crash.
#[derive(Clone, Copy, Debug, PartialEq, Eq, Structural)]
pub enum ResolveError {
    /// The computed absolute range reaches past the end of the buffer.
    OutOfBounds,
    /// The selected bytes are not valid UTF-8 under the assumed encoding.
    EncodingMismatch,
}

/// The bytes a record's value occupies: `count` bytes starting at
/// `header_offset + value_offset`.
pub open spec fn value_range(r: IFD, buf: Seq<u8>, header_offset: int) -> Seq<u8> {
    buf.subrange(header_offset + r.value_offset, header_offset + r.value_offset + r.count)
}

/// The computed range stays inside the buffer.
pub open spec fn value_in_bounds(r: IFD, buf: Seq<u8>, header_offset: int) -> bool {
    header_offset + r.value_offset + r.count <= buf.len()
}

/// The decoded value wrapped in single quotes.
pub open spec fn quoted(s: Seq<char>) -> Seq<char> {
    seq!['\''] + s + seq!['\'']
}

/// Relies on std::str::from_utf8: it returns `Ok` exactly when the bytes are
/// a valid UTF-8 encoding, and the returned str holds their decoding.
#[verifier::external_body]
fn utf8_decode_bytes(b: &[u8]) -> (r: Option<String>)
    ensures
        r is Some <==> valid_utf8(b@),
        r matches Some(s) ==> s@ == decode_utf8(b@),
{
    match std::str::from_utf8(b) {
        Ok(s) => Some(s.to_string()),
        Err(_) => None,
    }
}

impl IFD {
    /// Resolves this record's value against `buf`, with `value_offset` taken
    /// relative to `header_offset`: the selected bytes decoded as UTF-8 and
    /// wrapped in single quotes, or the error naming what went wrong. An
    /// out-of-range offset or non-text bytes are reported, never a panic.
    pub fn resolve_as_string(&self, buf: &Vec<u8>, header_offset: usize) -> (r: Result<
        String,
        ResolveError,
    >)
        ensures
            !value_in_bounds(*self, buf@, header_offset as int) ==> r == Err::<
                String,
                ResolveError,
            >(ResolveError::OutOfBounds),
            value_in_bounds(*self, buf@, header_offset as int) && !valid_utf8(
                value_range(*self, buf@, header_offset as int),
            ) ==> r == Err::<String, ResolveError>(ResolveError::EncodingMismatch),
            value_in_bounds(*self, buf@, header_offset as int) && valid_utf8(
                value_range(*self, buf@, header_offset as int),
            ) ==> (r matches Ok(s) && s@ == quoted(
                decode_utf8(value_range(*self, buf@, header_offset as int)),
            )),
    {
        let n: usize = buf.len();
        let start = match header_offset.checked_add(self.value_offset as usize) {
            Some(v) => v,
            None => {
                return Err(ResolveError::OutOfBounds);
            },
        };
        let end = match start.checked_add(self.count as usize) {
            Some(v) => v,
            None => {
                return Err(ResolveError::OutOfBounds);
            },
        };
        if end > n {
            return Err(ResolveError::OutOfBounds);
        }
        let bytes = slice_subrange(buf.as_slice(), start, end);
        match utf8_decode_bytes(bytes) {
            Some(s) => {
                proof {
                    reveal_strlit("'");
                }
                let mut out = String::new();
                out.append("'");
                out.append(s.as_str());
                out.append("'");
                Ok(out)
            },
            None => Err(ResolveError::EncodingMismatch),
        }
    }
}

impl ResolveError {
    /// The diagnostic rendering of this failure; resolution degrades to this
    /// message and the surrounding run continues.
    pub fn message(&self) -> (r: String)
        ensures
            *self == ResolveError::OutOfBounds ==> r@ ==
                "value unavailable: offset out of range, or stored in other endianness"@,
            *self == ResolveError::EncodingMismatch ==> r@ ==
                "value unavailable: bytes are not valid UTF-8, may be stored in other endianness"@,
    {
        match self {
            ResolveError::OutOfBounds => String::from_str(
                "value unavailable: offset out of range, or stored in other endianness",
            ),
            ResolveError::EncodingMismatch => String::from_str(
                "value unavailable: bytes are not valid UTF-8, may be stored in other endianness",
            ),
        }
    }
}

} // verus!
