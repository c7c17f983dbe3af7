//! Diagnostic renderings: bytes as lowercase hex, unsigned values as decimal
//! strings, and fixed-width hex-dump lines over a buffer span.

use vstd::prelude::*;
use vstd::slice::{slice_subrange, slice_to_vec};

verus! {

/// The lowercase hex digit for a value below 16.
pub open spec fn hex_digit(v: u8) -> char
    recommends
        v < 16,
{
    if v == 0 {
        '0'
    } else if v == 1 {
        '1'
    } else if v == 2 {
        '2'
    } else if v == 3 {
        '3'
    } else if v == 4 {
        '4'
    } else if v == 5 {
        '5'
    } else if v == 6 {
        '6'
    } else if v == 7 {
        '7'
    } else if v == 8 {
        '8'
    } else if v == 9 {
        '9'
    } else if v == 10 {
        'a'
    } else if v == 11 {
        'b'
    } else if v == 12 {
        'c'
    } else if v == 13 {
        'd'
    } else if v == 14 {
        'e'
    } else {
        'f'
    }
}

/// A byte as two lowercase hex digits, zero-padded.
pub open spec fn hex_byte(b: u8) -> Seq<char> {
    seq![hex_digit(b / 16), hex_digit(b % 16)]
}

/// A byte sequence rendered as two-digit lowercase hex values, each followed
/// by a single space (so the rendering of a non-empty sequence ends in a
/// trailing space).
pub open spec fn hex_spaced(s: Seq<u8>) -> Seq<char>
    decreases s.len(),
{
    if s.len() == 0 {
        seq![]
    } else {
        hex_spaced(s.drop_last()) + hex_byte(s.last()) + seq![' ']
    }
}

/// The decimal digits of `n`, most significant first, without leading zeros
/// (`0` renders as "0").
pub open spec fn dec_chars(n: nat) -> Seq<char>
    decreases n,
{
    if n < 10 {
        seq![hex_digit(n as u8)]
    } else {
        dec_chars(n / 10) + seq![hex_digit((n % 10) as u8)]
    }
}

/// A one- or two-character &str holding the lowercase hex digit for `v`.
pub(crate) fn hex_digit_str(v: u8) -> (r: &'static str)
    requires
        v < 16,
    ensures
        r@ =~= seq![hex_digit(v)],
{
    proof {
        reveal_strlit("0");
        reveal_strlit("1");
        reveal_strlit("2");
        reveal_strlit("3");
        reveal_strlit("4");
        reveal_strlit("5");
        reveal_strlit("6");
        reveal_strlit("7");
        reveal_strlit("8");
        reveal_strlit("9");
        reveal_strlit("a");
        reveal_strlit("b");
        reveal_strlit("c");
        reveal_strlit("d");
        reveal_strlit("e");
        reveal_strlit("f");
    }
    if v == 0 {
        "0"
    } else if v == 1 {
        "1"
    } else if v == 2 {
        "2"
    } else if v == 3 {
        "3"
    } else if v == 4 {
        "4"
    } else if v == 5 {
        "5"
    } else if v == 6 {
        "6"
    } else if v == 7 {
        "7"
    } else if v == 8 {
        "8"
    } else if v == 9 {
        "9"
    } else if v == 10 {
        "a"
    } else if v == 11 {
        "b"
    } else if v == 12 {
        "c"
    } else if v == 13 {
        "d"
    } else if v == 14 {
        "e"
    } else {
        "f"
    }
}

/// Appends the two-digit lowercase hex rendering of `b` to `out`.
pub(crate) fn push_hex_byte(out: &mut String, b: u8)
    ensures
        final(out)@ == old(out)@ + hex_byte(b),
{
    out.append(hex_digit_str(b / 16));
    out.append(hex_digit_str(b % 16));
}

/// Renders a byte vector as space-separated two-digit lowercase hex values
/// with a trailing space after the last byte.
pub fn byte_vec_to_hex_string(v: &Vec<u8>) -> (r: String)
    ensures
        r@ == hex_spaced(v@),
{
    let mut out = String::new();
    let mut i: usize = 0;
    while i < v.len()
        invariant
            i <= v@.len(),
            out@ == hex_spaced(v@.take(i as int)),
        decreases v@.len() - i,
    {
        push_hex_byte(&mut out, v[i]);
        out.append(" ");
        proof {
            reveal_strlit(" ");
            assert(v@.take(i + 1).drop_last() =~= v@.take(i as int));
            assert(v@.take(i + 1).last() == v@[i as int]);
        }
        i = i + 1;
    }
    proof {
        assert(v@.take(v@.len() as int) =~= v@);
    }
    out
}

/// Renders an unsigned value as its decimal digits, most significant first.
pub fn u64_to_dec_string(n: u64) -> (r: String)
    ensures
        r@ == dec_chars(n as nat),
    decreases n,
{
    if n < 10 {
        let mut out = String::new();
        out.append(hex_digit_str(n as u8));
        out
    } else {
        let mut out = u64_to_dec_string(n / 10);
        out.append(hex_digit_str((n % 10) as u8));
        out
    }
}

/// Renders an unsigned value as its decimal digits, most significant first.
pub fn u32_to_dec_string(n: u32) -> (r: String)
    ensures
        r@ == dec_chars(n as nat),
{
    u64_to_dec_string(n as u64)
}

/// A byte vector wrapped for hex rendering.
pub struct ByteSlice(pub Vec<u8>);

impl From<Vec<u8>> for ByteSlice {
    fn from(v: Vec<u8>) -> (r: ByteSlice) {
        ByteSlice(v)
    }
}

impl vstd::std_specs::convert::FromSpecImpl<Vec<u8>> for ByteSlice {
    open spec fn obeys_from_spec() -> bool {
        true
    }

    open spec fn from_spec(v: Vec<u8>) -> ByteSlice {
        ByteSlice(v)
    }
}

impl ByteSlice {
    /// The wrapped bytes as space-separated two-digit lowercase hex values
    /// with a trailing space.
    pub fn hex_string(&self) -> (r: String)
        ensures
            r@ == hex_spaced(self.0@),
    {
        byte_vec_to_hex_string(&self.0)
    }
}

/// Renders `length` buffer bytes starting at `offset` as space-separated
/// two-digit lowercase hex values with a trailing space.
pub fn hex_of_range(buf: &Vec<u8>, offset: usize, length: usize) -> (r: String)
    requires
        offset + length <= buf@.len(),
    ensures
        r@ == hex_spaced(buf@.subrange(offset as int, offset + length)),
{
    // Binding the length to a usize is what bounds `offset + length` below
    // usize::MAX for the checked addition.
    let n: usize = buf.len();
    let end: usize = offset + length;
    let chunk = slice_to_vec(slice_subrange(buf.as_slice(), offset, end));
    let _ = n;
    byte_vec_to_hex_string(&chunk)
}

/// A decimal offset label left-padded with spaces to width two.
pub open spec fn pad2(n: nat) -> Seq<char> {
    if n < 10 {
        seq![' '] + dec_chars(n)
    } else {
        dec_chars(n)
    }
}

/// One hex-dump line: the offset label padded to width two, a colon, a
/// space, and the hex rendering of the chunk at that offset.
pub open spec fn dump_line(buf: Seq<u8>, offset: nat, step: nat) -> Seq<char> {
    pad2(offset) + seq![':', ' '] + hex_spaced(
        buf.subrange(offset as int, offset as int + step as int),
    )
}

/// The hex-dump of `span` buffer bytes from `start` in chunks of `step`:
/// one line per chunk, in offset order.
pub open spec fn dump_repr(buf: Seq<u8>, start: nat, step: nat, span: nat) -> Seq<Seq<char>>
    recommends
        step >= 1,
{
    Seq::new(span / step, |k: int| dump_line(buf, (start + k * step) as nat, step))
}

/// Produces the hex-dump lines for `span` buffer bytes starting at `start`,
/// one line of `step` bytes each.
pub fn dump_lines(buf: &Vec<u8>, start: usize, step: usize, span: usize) -> (r: Vec<String>)
    requires
        step >= 1,
        span as int % (step as int) == 0,
        start + span <= buf@.len(),
    ensures
        r@.map_values(|s: String| s@) == dump_repr(buf@, start as nat, step as nat, span as nat),
{
    let n: usize = buf.len();
    let count: usize = span / step;
    let mut out: Vec<String> = Vec::new();
    let mut k: usize = 0;
    let mut offset: usize = start;
    proof {
        assert(count * step == span) by (nonlinear_arith)
            requires
                count == span as int / step as int,
                span as int % (step as int) == 0,
                step >= 1,
        ;
    }
    while k < count
        invariant
            n == buf@.len(),
            step >= 1,
            count * step == span,
            start + span <= n,
            k <= count,
            offset == start + k * step,
            offset + (count - k) * step == start + span,
            out@.len() == k,
            forall|j: int| 0 <= j < out@.len() ==> out@[j]@ == dump_repr(
                buf@,
                start as nat,
                step as nat,
                span as nat,
            )[j],
        decreases count - k,
    {
        proof {
            assert((count - k) * step >= step) by (nonlinear_arith)
                requires
                    k < count,
                    step >= 1,
            ;
            assert((count - k) * step == step + (count - (k + 1)) * step) by (nonlinear_arith);
            assert((k + 1) * step == k * step + step) by (nonlinear_arith);
            assert(span as int / step as int == count) by (nonlinear_arith)
                requires
                    count * step == span,
                    step >= 1,
            ;
            assert(dump_repr(buf@, start as nat, step as nat, span as nat)[k as int] == dump_line(
                buf@,
                (start + k * step) as nat,
                step as nat,
            ));
        }
        let mut line = if offset < 10 {
            proof {
                reveal_strlit(" ");
            }
            let mut l = String::new();
            l.append(" ");
            let d = u64_to_dec_string(offset as u64);
            l.append(d.as_str());
            l
        } else {
            u64_to_dec_string(offset as u64)
        };
        proof {
            reveal_strlit(": ");
        }
        line.append(": ");
        let chunk = hex_of_range(buf, offset, step);
        line.append(chunk.as_str());
        proof {
            assert(line@ =~= dump_line(buf@, offset as nat, step as nat));
        }
        out.push(line);
        k = k + 1;
        offset = offset + step;
    }
    proof {
        assert(out@.map_values(|s: String| s@) =~= dump_repr(
            buf@,
            start as nat,
            step as nat,
            span as nat,
        ));
    }
    out
}

} // verus!
