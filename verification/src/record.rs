//! The 12-byte TIFF Image File Directory (IFD) entry: decoding from a byte
//! buffer, encoding its fields back to bytes, and the round-trip proof.

use crate::fmt::{dec_chars, hex_byte};
use crate::fmt::{push_hex_byte, u32_to_dec_string};
use vstd::prelude::*;

verus! {

/// A decode operation asked for bytes beyond the end of the buffer.
#[derive(Clone, Copy, Debug, PartialEq, Eq, Structural)]
pub enum DecodeError {
    OutOfBounds,
}

/// One TIFF directory entry, decoded from 12 contiguous little-endian bytes.
#[derive(Clone, Copy, Debug, PartialEq, Eq, Structural)]
pub struct IFD {
    /// Field identifier (for example, "Make").
    pub tag: u16,
    /// TIFF type code; not validated against `count` or value semantics.
    pub tag_type: u16,
    /// Number of values of `tag_type`; reused directly as a byte length when
    /// a value is resolved as a string.
    pub count: u32,
    /// Value location, relative to the TIFF header start; always treated as
    /// an offset, never as an inline value.
    pub value_offset: u32,
}

/// The 16-bit value encoded little-endian in two bytes.
pub open spec fn u16_of_le(b0: u8, b1: u8) -> u16 {
    (b0 + b1 * 0x100) as u16
}

/// The 32-bit value encoded little-endian in four bytes.
pub open spec fn u32_of_le(b0: u8, b1: u8, b2: u8, b3: u8) -> u32 {
    (b0 + b1 * 0x100 + b2 * 0x10000 + b3 * 0x1000000) as u32
}

/// The two little-endian bytes of a 16-bit value.
pub open spec fn u16_le_bytes(v: u16) -> Seq<u8> {
    seq![(v % 0x100) as u8, (v / 0x100) as u8]
}

/// The four little-endian bytes of a 32-bit value.
pub open spec fn u32_le_bytes(v: u32) -> Seq<u8> {
    seq![
        (v % 0x100) as u8,
        ((v / 0x100) % 0x100) as u8,
        ((v / 0x10000) % 0x100) as u8,
        ((v / 0x1000000) % 0x100) as u8,
    ]
}

/// The record whose four fields are encoded in the 12 bytes of `s`.
pub open spec fn record_of_bytes(s: Seq<u8>) -> IFD
    recommends
        s.len() == 12,
{
    IFD {
        tag: u16_of_le(s[0], s[1]),
        tag_type: u16_of_le(s[2], s[3]),
        count: u32_of_le(s[4], s[5], s[6], s[7]),
        value_offset: u32_of_le(s[8], s[9], s[10], s[11]),
    }
}

/// The 12 bytes that encode a record's fields, little-endian.
pub open spec fn bytes_of_record(r: IFD) -> Seq<u8> {
    u16_le_bytes(r.tag) + u16_le_bytes(r.tag_type) + u32_le_bytes(r.count) + u32_le_bytes(
        r.value_offset,
    )
}

proof fn lemma_u16_le_round_trip(b0: u8, b1: u8)
    ensures
        u16_le_bytes(u16_of_le(b0, b1)) =~= seq![b0, b1],
{
    assert((b0 + b1 * 0x100) % 0x100 == b0 && (b0 + b1 * 0x100) / 0x100 == b1) by (nonlinear_arith)
        requires
            b0 < 0x100,
            b1 < 0x100,
    ;
}

proof fn lemma_u32_le_round_trip(b0: u8, b1: u8, b2: u8, b3: u8)
    ensures
        u32_le_bytes(u32_of_le(b0, b1, b2, b3)) =~= seq![b0, b1, b2, b3],
{
    let v = b0 + b1 * 0x100 + b2 * 0x10000 + b3 * 0x1000000;
    assert(v % 0x100 == b0 && (v / 0x100) % 0x100 == b1 && (v / 0x10000) % 0x100 == b2 && v
        / 0x1000000 == b3) by (nonlinear_arith)
        requires
            v == b0 + b1 * 0x100 + b2 * 0x10000 + b3 * 0x1000000,
            b0 < 0x100,
            b1 < 0x100,
            b2 < 0x100,
            b3 < 0x100,
    ;
}

/// Law: decoding any 12-byte slice and encoding the four fields back yields
/// exactly the original bytes.
pub proof fn lemma_record_round_trip(s: Seq<u8>)
    requires
        s.len() == 12,
    ensures
        bytes_of_record(record_of_bytes(s)) =~= s,
{
    lemma_u16_le_round_trip(s[0], s[1]);
    lemma_u16_le_round_trip(s[2], s[3]);
    lemma_u32_le_round_trip(s[4], s[5], s[6], s[7]);
    lemma_u32_le_round_trip(s[8], s[9], s[10], s[11]);
}

impl Default for IFD {
    /// The all-zero record.
    fn default() -> (r: IFD)
        ensures
            r == (IFD { tag: 0, tag_type: 0, count: 0, value_offset: 0 }),
    {
        IFD { tag: 0, tag_type: 0, count: 0, value_offset: 0 }
    }
}

impl IFD {
    /// Decodes the 12-byte record stored in `buf` at `offset`, or reports
    /// `OutOfBounds` when fewer than `offset + 12` bytes are available;
    /// never reads past the end of the buffer.
    pub fn from_offset(buf: &Vec<u8>, offset: usize) -> (r: Result<IFD, DecodeError>)
        ensures
            offset + 12 <= buf@.len() ==> r == Ok::<IFD, DecodeError>(
                record_of_bytes(buf@.subrange(offset as int, offset + 12)),
            ),
            offset + 12 > buf@.len() ==> r == Err::<IFD, DecodeError>(DecodeError::OutOfBounds),
    {
        let n: usize = buf.len();
        if n < 12 || offset > n - 12 {
            return Err(DecodeError::OutOfBounds);
        }
        let ghost s = buf@.subrange(offset as int, offset + 12);
        let tag = le16(buf[offset], buf[offset + 1]);
        let tag_type = le16(buf[offset + 2], buf[offset + 3]);
        let count = le32(buf[offset + 4], buf[offset + 5], buf[offset + 6], buf[offset + 7]);
        let value_offset = le32(
            buf[offset + 8],
            buf[offset + 9],
            buf[offset + 10],
            buf[offset + 11],
        );
        Ok(IFD { tag, tag_type, count, value_offset })
    }

    /// The 12 little-endian bytes that encode this record's fields.
    pub fn to_le_bytes(&self) -> (r: Vec<u8>)
        ensures
            r@ =~= bytes_of_record(*self),
    {
        let mut out: Vec<u8> = Vec::new();
        out.push((self.tag % 0x100) as u8);
        out.push((self.tag / 0x100) as u8);
        out.push((self.tag_type % 0x100) as u8);
        out.push((self.tag_type / 0x100) as u8);
        out.push((self.count % 0x100) as u8);
        out.push(((self.count / 0x100) % 0x100) as u8);
        out.push(((self.count / 0x10000) % 0x100) as u8);
        out.push(((self.count / 0x1000000) % 0x100) as u8);
        out.push((self.value_offset % 0x100) as u8);
        out.push(((self.value_offset / 0x100) % 0x100) as u8);
        out.push(((self.value_offset / 0x10000) % 0x100) as u8);
        out.push(((self.value_offset / 0x1000000) % 0x100) as u8);
        out
    }
}

/// A byte group in debug-array style: opening bracket, the bytes as
/// two-digit lowercase hex separated by comma-space, closing bracket.
pub open spec fn hex_group(s: Seq<u8>) -> Seq<char> {
    seq!['['] + hex_group_inner(s) + seq![']']
}

/// The inside of a debug-array byte group: hex bytes joined by ", ".
pub open spec fn hex_group_inner(s: Seq<u8>) -> Seq<char>
    decreases s.len(),
{
    if s.len() == 0 {
        seq![]
    } else if s.len() == 1 {
        hex_byte(s[0])
    } else {
        hex_group_inner(s.drop_last()) + seq![',', ' '] + hex_byte(s.last())
    }
}

/// The hex rendering of a record: one debug-array group per field, over the
/// field's own little-endian bytes, concatenated without separators.
pub open spec fn record_hex_repr(r: IFD) -> Seq<char> {
    hex_group(u16_le_bytes(r.tag)) + hex_group(u16_le_bytes(r.tag_type)) + hex_group(
        u32_le_bytes(r.count),
    ) + hex_group(u32_le_bytes(r.value_offset))
}

/// The decimal rendering of a record: the four fields as unsigned decimal
/// values, separated by comma-space.
pub open spec fn record_display_repr(r: IFD) -> Seq<char> {
    dec_chars(r.tag as nat) + seq![',', ' '] + dec_chars(r.tag_type as nat) + seq![',', ' ']
        + dec_chars(r.count as nat) + seq![',', ' '] + dec_chars(r.value_offset as nat)
}

impl IFD {
    /// The record's decimal rendering: `"{tag}, {tag_type}, {count},
    /// {value_offset}"`.
    pub fn display_string(&self) -> (r: String)
        ensures
            r@ == record_display_repr(*self),
    {
        proof {
            reveal_strlit(", ");
        }
        let mut out = u32_to_dec_string(self.tag as u32);
        out.append(", ");
        let t = u32_to_dec_string(self.tag_type as u32);
        out.append(t.as_str());
        out.append(", ");
        let c = u32_to_dec_string(self.count);
        out.append(c.as_str());
        out.append(", ");
        let v = u32_to_dec_string(self.value_offset);
        out.append(v.as_str());
        out
    }

    /// The record's hex rendering: each field's little-endian bytes as a
    /// debug-array group of two-digit lowercase hex values, the four groups
    /// concatenated.
    pub fn hex_string(&self) -> (r: String)
        ensures
            r@ == record_hex_repr(*self),
    {
        let mut out = String::new();
        push_hex_group2(&mut out, (self.tag % 0x100) as u8, (self.tag / 0x100) as u8);
        push_hex_group2(&mut out, (self.tag_type % 0x100) as u8, (self.tag_type / 0x100) as u8);
        push_hex_group4(
            &mut out,
            (self.count % 0x100) as u8,
            ((self.count / 0x100) % 0x100) as u8,
            ((self.count / 0x10000) % 0x100) as u8,
            ((self.count / 0x1000000) % 0x100) as u8,
        );
        push_hex_group4(
            &mut out,
            (self.value_offset % 0x100) as u8,
            ((self.value_offset / 0x100) % 0x100) as u8,
            ((self.value_offset / 0x10000) % 0x100) as u8,
            ((self.value_offset / 0x1000000) % 0x100) as u8,
        );
        out
    }
}

/// Appends a two-byte debug-array hex group to `out`.
fn push_hex_group2(out: &mut String, b0: u8, b1: u8)
    ensures
        final(out)@ == old(out)@ + hex_group(seq![b0, b1]),
{
    proof {
        reveal_strlit("[");
        reveal_strlit(", ");
        reveal_strlit("]");
        let s = seq![b0, b1];
        assert(s.drop_last() =~= seq![b0]);
        assert(hex_group_inner(seq![b0]) == hex_byte(b0));
        assert(hex_group_inner(s) =~= hex_byte(b0) + seq![',', ' '] + hex_byte(b1));
    }
    out.append("[");
    push_hex_byte(out, b0);
    out.append(", ");
    push_hex_byte(out, b1);
    out.append("]");
    proof {
        assert(final(out)@ =~= old(out)@ + hex_group(seq![b0, b1]));
    }
}

/// Appends a four-byte debug-array hex group to `out`.
fn push_hex_group4(out: &mut String, b0: u8, b1: u8, b2: u8, b3: u8)
    ensures
        final(out)@ == old(out)@ + hex_group(seq![b0, b1, b2, b3]),
{
    proof {
        reveal_strlit("[");
        reveal_strlit(", ");
        reveal_strlit("]");
        let s = seq![b0, b1, b2, b3];
        assert(s.drop_last() =~= seq![b0, b1, b2]);
        assert(seq![b0, b1, b2].drop_last() =~= seq![b0, b1]);
        assert(seq![b0, b1].drop_last() =~= seq![b0]);
        assert(hex_group_inner(seq![b0]) == hex_byte(b0));
        assert(hex_group_inner(seq![b0, b1]) =~= hex_byte(b0) + seq![',', ' '] + hex_byte(b1));
        assert(hex_group_inner(seq![b0, b1, b2]) =~= hex_group_inner(seq![b0, b1]) + seq![',', ' ']
            + hex_byte(b2));
        assert(hex_group_inner(s) =~= hex_byte(b0) + seq![',', ' '] + hex_byte(b1) + seq![',', ' ']
            + hex_byte(b2) + seq![',', ' '] + hex_byte(b3));
    }
    out.append("[");
    push_hex_byte(out, b0);
    out.append(", ");
    push_hex_byte(out, b1);
    out.append(", ");
    push_hex_byte(out, b2);
    out.append(", ");
    push_hex_byte(out, b3);
    out.append("]");
    proof {
        assert(final(out)@ =~= old(out)@ + hex_group(seq![b0, b1, b2, b3]));
    }
}

/// Reconstructs a 16-bit value from its two little-endian bytes.
fn le16(b0: u8, b1: u8) -> (r: u16)
    ensures
        r == u16_of_le(b0, b1),
{
    b0 as u16 + b1 as u16 * 0x100
}

/// Reconstructs a 32-bit value from its four little-endian bytes.
fn le32(b0: u8, b1: u8, b2: u8, b3: u8) -> (r: u32)
    ensures
        r == u32_of_le(b0, b1, b2, b3),
{
    b0 as u32 + b1 as u32 * 0x100 + b2 as u32 * 0x10000 + b3 as u32 * 0x1000000
}

} // verus!
