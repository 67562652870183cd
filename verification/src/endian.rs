//! Fixed-width little-endian integers: their value as a function of the
//! bytes, their bytes as a function of the value, and the readers and
//! writers that the chunk codecs are built from.

use byteorder::LittleEndian;
use byteorder::ReadBytesExt;
use vstd::prelude::*;

use crate::error::WavError;

verus! {

/// The number that the first two bytes of `s` spell, least significant
/// byte first.
pub open spec fn le_u16(s: Seq<u8>) -> int
    recommends
        s.len() >= 2,
{
    s[0] as int + 256 * (s[1] as int)
}

/// The number that the first four bytes of `s` spell, least significant
/// byte first.
pub open spec fn le_u32(s: Seq<u8>) -> int
    recommends
        s.len() >= 4,
{
    s[0] as int + 256 * (s[1] as int) + 65536 * (s[2] as int) + 16777216 * (s[3] as int)
}

/// The two bytes that spell `v`, least significant byte first.
pub open spec fn le_bytes_u16(v: u16) -> Seq<u8> {
    seq![(v % 256) as u8, (v / 256) as u8]
}

/// The four bytes that spell `v`, least significant byte first.
pub open spec fn le_bytes_u32(v: u32) -> Seq<u8> {
    seq![
        (v % 256) as u8,
        ((v / 256) % 256) as u8,
        ((v / 65536) % 256) as u8,
        (v / 16777216) as u8,
    ]
}

/// The error of `std::io`, which a failed read hands back. Nothing is
/// known of what it holds.
#[verifier::external_type_specification]
#[verifier::external_body]
pub struct ExIoError(std::io::Error);

/// Reads a `u16` from a cursor over `buffer` with
/// `byteorder::ReadBytesExt::read_u16::<LittleEndian>`. That method fills
/// a two-byte array with `read_exact`, which fails when fewer than two
/// bytes are left, and otherwise returns the little-endian value of those
/// two bytes; what follows them in `buffer` is not looked at.
#[verifier::external_body]
fn cursor_read_u16(buffer: &[u8]) -> (r: Result<u16, std::io::Error>)
    ensures
        r is Ok <==> buffer@.len() >= 2,
        r matches Ok(v) ==> v == le_u16(buffer@),
{
    std::io::Cursor::new(buffer).read_u16::<LittleEndian>()
}

/// Reads a `u32` from a cursor over `buffer` with
/// `byteorder::ReadBytesExt::read_u32::<LittleEndian>`. That method fills
/// a four-byte array with `read_exact`, which fails when fewer than four
/// bytes are left, and otherwise returns the little-endian value of those
/// four bytes; what follows them in `buffer` is not looked at.
#[verifier::external_body]
fn cursor_read_u32(buffer: &[u8]) -> (r: Result<u32, std::io::Error>)
    ensures
        r is Ok <==> buffer@.len() >= 4,
        r matches Ok(v) ==> v == le_u32(buffer@),
{
    std::io::Cursor::new(buffer).read_u32::<LittleEndian>()
}

/// Decodes a slice of exactly two bytes as a little-endian `u16`.
pub fn read_buffer_as_u16(buffer: &[u8]) -> (r: Result<u16, WavError>)
    ensures
        buffer@.len() == 2 ==> (r matches Ok(v) && v == le_u16(buffer@)),
        buffer@.len() != 2 ==> r == Err::<u16, WavError>(WavError::MalformedInput),
{
    if buffer.len() != 2 {
        return Err(WavError::MalformedInput);
    }
    match cursor_read_u16(buffer) {
        Ok(v) => Ok(v),
        Err(_) => Err(WavError::MalformedInput),
    }
}

/// Decodes a slice of exactly four bytes as a little-endian `u32`.
pub fn read_buffer_as_u32(buffer: &[u8]) -> (r: Result<u32, WavError>)
    ensures
        buffer@.len() == 4 ==> (r matches Ok(v) && v == le_u32(buffer@)),
        buffer@.len() != 4 ==> r == Err::<u32, WavError>(WavError::MalformedInput),
{
    if buffer.len() != 4 {
        return Err(WavError::MalformedInput);
    }
    match cursor_read_u32(buffer) {
        Ok(v) => Ok(v),
        Err(_) => Err(WavError::MalformedInput),
    }
}

/// Appends the two little-endian bytes of `v` to `out`.
pub fn write_u16_le(out: &mut Vec<u8>, v: u16)
    ensures
        final(out)@ == old(out)@ + le_bytes_u16(v),
{
    out.push((v % 256) as u8);
    out.push((v / 256) as u8);
}

/// Appends the four little-endian bytes of `v` to `out`.
pub fn write_u32_le(out: &mut Vec<u8>, v: u32)
    ensures
        final(out)@ == old(out)@ + le_bytes_u32(v),
{
    out.push((v % 256) as u8);
    out.push(((v / 256) % 256) as u8);
    out.push(((v / 65536) % 256) as u8);
    out.push((v / 16777216) as u8);
}

/// Appends `bytes` to `out`.
pub fn write_bytes(out: &mut Vec<u8>, bytes: &[u8])
    ensures
        final(out)@ == old(out)@ + bytes@,
{
    let ghost before: Seq<u8> = out@;
    let n: usize = bytes.len();
    let mut i: usize = 0;
    while i < n
        invariant
            i <= n,
            n == bytes@.len(),
            out@ == before + bytes@.subrange(0, i as int),
        decreases n - i,
    {
        out.push(bytes[i]);
        i += 1;
        assert(out@ =~= before + bytes@.subrange(0, i as int));
    }
    assert(bytes@.subrange(0, n as int) =~= bytes@);
}

/// Reading back the bytes written for a `u16` gives the number written.
pub proof fn lemma_le_u16_of_bytes(v: u16)
    ensures
        le_bytes_u16(v).len() == 2,
        le_u16(le_bytes_u16(v)) == v,
{
}

/// Writing the number read from two bytes gives those two bytes.
pub proof fn lemma_le_bytes_of_u16(s: Seq<u8>)
    requires
        s.len() == 2,
    ensures
        0 <= le_u16(s) <= u16::MAX,
        le_bytes_u16(le_u16(s) as u16) == s,
{
}

/// Reading back the bytes written for a `u32` gives the number written.
pub proof fn lemma_le_u32_of_bytes(v: u32)
    ensures
        le_bytes_u32(v).len() == 4,
        le_u32(le_bytes_u32(v)) == v,
{
}

/// Writing the number read from four bytes gives those four bytes.
pub proof fn lemma_le_bytes_of_u32(s: Seq<u8>)
    requires
        s.len() == 4,
    ensures
        0 <= le_u32(s) <= u32::MAX,
        le_bytes_u32(le_u32(s) as u32) == s,
{
    let b0: int = s[0] as int;
    let b1: int = s[1] as int;
    let b2: int = s[2] as int;
    let b3: int = s[3] as int;
    let v: int = le_u32(s);
    let q1: int = b1 + 256 * b2 + 65536 * b3;
    let q2: int = b2 + 256 * b3;
    assert(v == 256 * q1 + b0);
    assert(v == 65536 * q2 + (256 * b1 + b0));
    assert(v == 16777216 * b3 + (65536 * b2 + 256 * b1 + b0));
    assert(v / 256 == q1 && v % 256 == b0);
    assert(v / 65536 == q2);
    assert(v / 16777216 == b3);
    assert(q1 % 256 == b1) by {
        assert(q1 == 256 * q2 + b1);
    }
    assert(q2 % 256 == b2);
    assert(le_bytes_u32(v as u32) =~= s);
}

} // verus!
