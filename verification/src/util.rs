//! Byte-level integer and string extraction shared by the three decoders.
use vstd::prelude::*;
use vstd::slice::{slice_subrange, slice_to_vec};

verus! {

/// The bytes of one read.
pub type Buffer = Vec<u8>;

/// Value of the first two bytes read as a big-endian number.
pub open spec fn be16(b: Seq<u8>) -> int {
    b[0] * 0x100 + b[1]
}

/// Value of the first three bytes read as a big-endian number.
pub open spec fn be24(b: Seq<u8>) -> int {
    b[0] * 0x10000 + b[1] * 0x100 + b[2]
}

/// Value of the first four bytes read as a big-endian number.
pub open spec fn be32(b: Seq<u8>) -> int {
    b[0] * 0x1000000 + b[1] * 0x10000 + b[2] * 0x100 + b[3]
}

/// Value of the first four bytes read as a little-endian number.
pub open spec fn le32(b: Seq<u8>) -> int {
    b[0] + b[1] * 0x100 + b[2] * 0x10000 + b[3] * 0x1000000
}

/// Value of the first eight bytes read as a big-endian number.
pub open spec fn be64(b: Seq<u8>) -> int {
    be32(b) * 0x100000000 + be32(b.skip(4))
}

/// Value of the first sixteen bytes read as a big-endian number.
pub open spec fn be128(b: Seq<u8>) -> int {
    be64(b) * 0x10000000000000000 + be64(b.skip(8))
}

/// The bit of `value` that stands `shift` places above the lowest one.
pub open spec fn bit_of(value: u8, shift: u8) -> u8 {
    (value >> shift) & 1
}

/// The eight bits of a byte, highest first.
pub open spec fn bits_of(value: u8) -> Seq<u8> {
    Seq::new(8, |j: int| bit_of(value, (7 - j) as u8))
}

/// `b` without its leading zero bytes.
pub open spec fn trim_start(b: Seq<u8>) -> Seq<u8>
    decreases b.len(),
{
    if b.len() > 0 && b[0] == 0 {
        trim_start(b.skip(1))
    } else {
        b
    }
}

/// `b` without its trailing zero bytes.
pub open spec fn trim_end(b: Seq<u8>) -> Seq<u8>
    decreases b.len(),
{
    if b.len() > 0 && b.last() == 0 {
        trim_end(b.drop_last())
    } else {
        b
    }
}

/// `b` without the zero bytes at either end.
pub open spec fn trim_nul(b: Seq<u8>) -> Seq<u8> {
    trim_end(trim_start(b))
}

/// Each byte read as the character with the same code point.
pub open spec fn latin1_text(bytes: Seq<u8>) -> Seq<char> {
    Seq::new(bytes.len(), |i: int| bytes[i] as char)
}

/// The 16-bit unit made of a high and a low byte.
pub open spec fn unit_of(high: u8, low: u8) -> u16 {
    (high * 0x100 + low) as u16
}

/// The code units that the byte pairs of `text` spell; `reverse` reads each
/// pair low byte first. A last odd byte is left out.
pub open spec fn code_units(text: Seq<u8>, reverse: bool) -> Seq<u16> {
    Seq::new(
        text.len() / 2,
        |i: int|
            if reverse {
                unit_of(text[2 * i + 1], text[2 * i])
            } else {
                unit_of(text[2 * i], text[2 * i + 1])
            },
    )
}

/// `units` without its trailing zero units.
pub open spec fn trim_units(units: Seq<u16>) -> Seq<u16>
    decreases units.len(),
{
    if units.len() > 0 && units.last() == 0 {
        trim_units(units.drop_last())
    } else {
        units
    }
}

/// Leading zeros that are skipped by hand leave the same trimmed bytes.
pub proof fn lemma_trim_start_skip(b: Seq<u8>, i: int)
    requires
        0 <= i <= b.len(),
        forall|k: int| 0 <= k < i ==> b[k] == 0,
    ensures
        trim_start(b) == trim_start(b.skip(i)),
    decreases i,
{
    if i > 0 {
        lemma_trim_start_skip(b.skip(1), i - 1);
        assert(b.skip(1).skip(i - 1) =~= b.skip(i));
    } else {
        assert(b.skip(0) =~= b);
    }
}

/// Trailing zeros that are cut off by hand leave the same trimmed bytes.
pub proof fn lemma_trim_end_take(b: Seq<u8>, n: int)
    requires
        0 <= n <= b.len(),
        forall|k: int| n <= k < b.len() ==> b[k] == 0,
    ensures
        trim_end(b) == trim_end(b.take(n)),
    decreases b.len() - n,
{
    if n < b.len() {
        lemma_trim_end_take(b.drop_last(), n);
        assert(b.drop_last().take(n) =~= b.take(n));
    } else {
        assert(b.take(n) =~= b);
    }
}

/// Trailing zero units that are cut off by hand leave the same trimmed
/// units.
pub proof fn lemma_trim_units_take(units: Seq<u16>, n: int)
    requires
        0 <= n <= units.len(),
        forall|k: int| n <= k < units.len() ==> units[k] == 0,
    ensures
        trim_units(units) == trim_units(units.take(n)),
    decreases units.len() - n,
{
    if n < units.len() {
        lemma_trim_units_take(units.drop_last(), n);
        assert(units.drop_last().take(n) =~= units.take(n));
    } else {
        assert(units.take(n) =~= units);
    }
}

/// A copy of the bytes of `buffer` from `from` up to, not including, `to`.
pub fn copy_range(buffer: &[u8], from: usize, to: usize) -> (out: Vec<u8>)
    requires
        from <= to <= buffer@.len(),
    ensures
        out@ == buffer@.subrange(from as int, to as int),
{
    slice_to_vec(slice_subrange(buffer, from, to))
}

/// Splits each byte into its eight bits, highest bit first.
pub fn map_to_binary(decimal: &[u8]) -> (result: Vec<Vec<u8>>)
    ensures
        result@.len() == decimal@.len(),
        forall|i: int| 0 <= i < decimal@.len() ==> (#[trigger] result@[i])@ == bits_of(decimal@[i]),
{
    let mut result: Vec<Vec<u8>> = Vec::new();
    let mut i: usize = 0;
    while i < decimal.len()
        invariant
            i <= decimal@.len(),
            result@.len() == i,
            forall|k: int| 0 <= k < i ==> (#[trigger] result@[k])@ == bits_of(decimal@[k]),
        decreases decimal@.len() - i,
    {
        let value: u8 = decimal[i];
        let mut byte: Vec<u8> = Vec::new();
        let mut j: u8 = 0;
        while j < 8
            invariant
                j <= 8,
                byte@.len() == j,
                forall|k: int| 0 <= k < j ==> #[trigger] byte@[k] == bit_of(value, (7 - k) as u8),
            decreases 8 - j,
        {
            let shift: u8 = 7 - j;
            byte.push((value >> shift) & 1);
            j += 1;
        }
        assert(byte@ =~= bits_of(value));
        result.push(byte);
        i += 1;
    }
    result
}

/// Pairs the bytes of `text` into 16-bit code units and drops the zero units
/// at the end. With `reverse` each pair is read low byte first.
pub fn into_big_endian_u16(text: &[u8], reverse: bool) -> (units: Vec<u16>)
    ensures
        units@ == trim_units(code_units(text@, reverse)),
{
    let mut big_endian_u16: Vec<u16> = Vec::new();
    let pairs: usize = text.len() / 2;
    let mut index: usize = 0;
    while index < pairs
        invariant
            pairs == text@.len() / 2,
            2 * pairs <= text@.len() <= usize::MAX,
            index <= pairs,
            big_endian_u16@ == code_units(text@, reverse).take(index as int),
        decreases pairs - index,
    {
        let first: u8 = text[index * 2];
        let second: u8 = text[index * 2 + 1];
        let unit: u16 = if reverse {
            second as u16 * 0x100 + first as u16
        } else {
            first as u16 * 0x100 + second as u16
        };
        big_endian_u16.push(unit);
        index += 1;
        assert(big_endian_u16@ =~= code_units(text@, reverse).take(index as int));
    }
    let ghost all = big_endian_u16@;
    assert(all =~= code_units(text@, reverse));
    let mut n: usize = big_endian_u16.len();
    while n > 0 && big_endian_u16[n - 1] == 0
        invariant
            n <= all.len(),
            big_endian_u16@ == all,
            forall|k: int| n <= k < all.len() ==> all[k] == 0,
        decreases n,
    {
        n -= 1;
    }
    proof {
        lemma_trim_units_take(all, n as int);
    }
    big_endian_u16.truncate(n);
    assert(big_endian_u16@ =~= all.take(n as int));
    big_endian_u16
}

/// The text whose characters have the code points of `bytes`, one for one.
pub fn bytes_to_text(bytes: &[u8]) -> (text: String)
    ensures
        text@ == latin1_text(bytes@),
{
    let mut text = String::new();
    let mut i: usize = 0;
    while i < bytes.len()
        invariant
            i <= bytes@.len(),
            text@ == latin1_text(bytes@.take(i as int)),
        decreases bytes@.len() - i,
    {
        text.push(bytes[i] as char);
        i += 1;
        assert(text@ =~= latin1_text(bytes@.take(i as int)));
    }
    assert(bytes@.take(i as int) =~= bytes@);
    text
}

/// The bounds `(from, to)` of `bytes` without the zero bytes at either end.
pub fn trim_bounds(bytes: &[u8]) -> (bounds: (usize, usize))
    ensures
        bounds.0 <= bounds.1 <= bytes@.len(),
        bytes@.subrange(bounds.0 as int, bounds.1 as int) == trim_nul(bytes@),
{
    let mut from: usize = 0;
    while from < bytes.len() && bytes[from] == 0
        invariant
            from <= bytes@.len(),
            forall|k: int| 0 <= k < from ==> bytes@[k] == 0,
        decreases bytes@.len() - from,
    {
        from += 1;
    }
    let ghost rest = bytes@.skip(from as int);
    let mut to: usize = bytes.len();
    while to > from && bytes[to - 1] == 0
        invariant
            from <= to <= bytes@.len(),
            forall|k: int| to <= k < bytes@.len() ==> bytes@[k] == 0,
        decreases to,
    {
        to -= 1;
    }
    proof {
        lemma_trim_start_skip(bytes@, from as int);
        assert(trim_start(rest) == rest);
        lemma_trim_end_take(rest, to - from);
        assert(rest.take(to - from) =~= bytes@.subrange(from as int, to as int));
        let kept = rest.take(to - from);
        assert(trim_end(kept) == kept) by {
            if kept.len() > 0 {
                assert(kept.last() == bytes@[to - 1]);
            }
        }
    }
    (from, to)
}

/// Decodes Latin-1: the zero bytes at either end are dropped, and each byte
/// left becomes the character with the same code point.
pub fn latin1_to_string(latin1: &[u8]) -> (text: String)
    ensures
        text@ == latin1_text(trim_nul(latin1@)),
{
    let (from, to) = trim_bounds(latin1);
    bytes_to_text(slice_subrange(latin1, from, to))
}

/// The little-endian number in the first four bytes of `buffer`.
pub fn parse_4_bytes_with_little_endian(buffer: &[u8]) -> (value: u32)
    requires
        buffer@.len() >= 4,
    ensures
        value == le32(buffer@),
{
    buffer[0] as u32 + buffer[1] as u32 * 0x100 + buffer[2] as u32 * 0x10000 + buffer[3] as u32
        * 0x1000000
}

/// The big-endian number in the first four bytes of `buffer`.
pub fn parse_4_bytes_with_big_endian(buffer: &[u8]) -> (value: u32)
    requires
        buffer@.len() >= 4,
    ensures
        value == be32(buffer@),
{
    buffer[3] as u32 + buffer[2] as u32 * 0x100 + buffer[1] as u32 * 0x10000 + buffer[0] as u32
        * 0x1000000
}

/// The big-endian number in the first eight bytes of `buffer`.
pub fn parse_8_bytes_with_big_endian(buffer: &[u8]) -> (value: u64)
    requires
        buffer@.len() >= 8,
    ensures
        value == be64(buffer@),
{
    buffer[7] as u64 + buffer[6] as u64 * 0x100 + buffer[5] as u64 * 0x10000 + buffer[4] as u64
        * 0x1000000 + buffer[3] as u64 * 0x100000000 + buffer[2] as u64 * 0x10000000000
        + buffer[1] as u64 * 0x1000000000000 + buffer[0] as u64 * 0x100000000000000
}

/// Where the first byte equal to `byte` stands at or after `from`; the
/// length where there is none.
pub open spec fn scan_for(bytes: Seq<u8>, byte: u8, from: int) -> int
    decreases bytes.len() - from,
{
    if from < 0 || from >= bytes.len() {
        bytes.len() as int
    } else if bytes[from] == byte {
        from
    } else {
        scan_for(bytes, byte, from + 1)
    }
}

/// Where the first byte equal to `byte` stands; the length where there is
/// none.
pub fn find_byte(bytes: &[u8], byte: u8) -> (at: usize)
    ensures
        at == scan_for(bytes@, byte, 0),
        at <= bytes@.len(),
{
    let mut at: usize = 0;
    while at < bytes.len() && bytes[at] != byte
        invariant
            at <= bytes@.len(),
            scan_for(bytes@, byte, 0) == scan_for(bytes@, byte, at as int),
        decreases bytes@.len() - at,
    {
        at += 1;
    }
    at
}

/// The big-endian number in the two bytes at `at`.
pub fn read_be16(buffer: &[u8], at: usize) -> (value: u16)
    requires
        at + 2 <= buffer@.len(),
    ensures
        value == be16(buffer@.skip(at as int)),
{
    buffer[at] as u16 * 0x100 + buffer[at + 1] as u16
}

/// The big-endian number in the three bytes at `at`.
pub fn read_be24(buffer: &[u8], at: usize) -> (value: u32)
    requires
        at + 3 <= buffer@.len(),
    ensures
        value == be24(buffer@.skip(at as int)),
{
    buffer[at] as u32 * 0x10000 + buffer[at + 1] as u32 * 0x100 + buffer[at + 2] as u32
}

/// The big-endian number in the four bytes at `at`.
pub fn read_be32(buffer: &[u8], at: usize) -> (value: u32)
    requires
        at + 4 <= buffer@.len(),
    ensures
        value == be32(buffer@.skip(at as int)),
{
    let length: usize = buffer.len();
    assert(at + 4 <= length);
    parse_4_bytes_with_big_endian(slice_subrange(buffer, at, at + 4))
}

/// The little-endian number in the four bytes at `at`.
pub fn read_le32(buffer: &[u8], at: usize) -> (value: u32)
    requires
        at + 4 <= buffer@.len(),
    ensures
        value == le32(buffer@.skip(at as int)),
{
    let length: usize = buffer.len();
    assert(at + 4 <= length);
    parse_4_bytes_with_little_endian(slice_subrange(buffer, at, at + 4))
}

/// The big-endian number in the eight bytes at `at`.
pub fn read_be64(buffer: &[u8], at: usize) -> (value: u64)
    requires
        at + 8 <= buffer@.len(),
    ensures
        value == be64(buffer@.skip(at as int)),
{
    let length: usize = buffer.len();
    assert(at + 8 <= length);
    parse_8_bytes_with_big_endian(slice_subrange(buffer, at, at + 8))
}

/// Moves a closed byte range `[start, end]` to the `value` bytes that follow it.
pub fn update_start_end(start: &mut usize, end: &mut usize, value: usize)
    requires
        *old(end) + 1 + value <= usize::MAX,
    ensures
        *final(start) == *old(end) + 1,
        *final(end) == *old(end) + value,
{
    *start = *end + 1;
    *end = *start - 1 + value;
}

} // verus!
