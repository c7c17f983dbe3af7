//! Parsing a caller-chosen hex string into the raw bytes used as search
//! patterns.

use vstd::prelude::*;

verus! {

/// The character is a hex digit, in either case.
pub open spec fn is_hex_digit(c: char) -> bool {
    (48 <= c as u32 && c as u32 <= 57) || (97 <= c as u32 && c as u32 <= 102) || (65 <= c as u32
        && c as u32 <= 70)
}

/// The value of a hex digit character.
pub open spec fn hex_digit_val(c: char) -> u8
    recommends
        is_hex_digit(c),
{
    if 48 <= c as u32 && c as u32 <= 57 {
        (c as u32 - 48) as u8
    } else if 97 <= c as u32 && c as u32 <= 102 {
        (c as u32 - 87) as u8
    } else {
        (c as u32 - 65 + 10) as u8
    }
}

/// The byte a two-character chunk parses to: its hex value when both
/// characters are hex digits, and 0 otherwise (a failed chunk parse falls
/// back to 0 rather than stopping the scan).
pub open spec fn hex_pair_val(c1: char, c2: char) -> u8 {
    if is_hex_digit(c1) && is_hex_digit(c2) {
        (hex_digit_val(c1) * 16 + hex_digit_val(c2)) as u8
    } else {
        0
    }
}

/// The bytes a hex string parses to: one byte per two-character chunk from
/// the start; a trailing lone character is padded with '0' on the right.
pub open spec fn hex_str_bytes(s: Seq<char>) -> Seq<u8> {
    Seq::new(
        ((s.len() + 1) / 2) as nat,
        |k: int|
            if 2 * k + 1 < s.len() {
                hex_pair_val(s[2 * k], s[2 * k + 1])
            } else {
                hex_pair_val(s[2 * k], '0')
            },
    )
}

/// The value of a hex digit character, or `None` when it is no hex digit.
fn hex_char_val(c: char) -> (r: Option<u8>)
    ensures
        is_hex_digit(c) ==> r == Some(hex_digit_val(c)),
        !is_hex_digit(c) ==> r is None,
{
    let u = c as u32;
    if 48 <= u && u <= 57 {
        Some((u - 48) as u8)
    } else if 97 <= u && u <= 102 {
        Some((u - 87) as u8)
    } else if 65 <= u && u <= 70 {
        Some((u - 55) as u8)
    } else {
        None
    }
}

/// Parses one two-character chunk to a byte, falling back to 0.
fn hex_pair(c1: char, c2: char) -> (r: u8)
    ensures
        r == hex_pair_val(c1, c2),
{
    match (hex_char_val(c1), hex_char_val(c2)) {
        (Some(v1), Some(v2)) => v1 * 16 + v2,
        _ => 0,
    }
}

/// Parses a hex string into bytes, two characters per byte from the start;
/// a trailing lone character is treated as the chunk it would start, padded
/// with '0'; a chunk that is not two hex digits parses to 0.
pub fn bytes_from_str(s: &str) -> (r: Vec<u8>)
    ensures
        r@ == hex_str_bytes(s@),
{
    let n: usize = s.unicode_len();
    let total: usize = n / 2 + n % 2;
    let mut out: Vec<u8> = Vec::new();
    let mut k: usize = 0;
    while k < total
        invariant
            n == s@.len(),
            total == (n + 1) / 2,
            k <= total,
            out@.len() == k,
            forall|j: int| 0 <= j < out@.len() ==> out@[j] == hex_str_bytes(s@)[j],
        decreases total - k,
    {
        let i: usize = 2 * k;
        let c1 = s.get_char(i);
        let b: u8 = if i + 1 < n {
            hex_pair(c1, s.get_char(i + 1))
        } else {
            hex_pair(c1, '0')
        };
        out.push(b);
        k = k + 1;
    }
    proof {
        assert(out@ =~= hex_str_bytes(s@));
    }
    out
}

} // verus!
