//! The four-byte ASCII tags that open each chunk, and the routines that
//! read and write them.

use vstd::prelude::*;

verus! {

/// `"RIFF"`, which opens the file.
pub const RIFF_ID: [u8; 4] = [0x52, 0x49, 0x46, 0x46];

/// `"WAVE"`, the form type of the file.
pub const WAVE_ID: [u8; 4] = [0x57, 0x41, 0x56, 0x45];

/// `"fmt "`, which opens the format subchunk.
pub const FMT_ID: [u8; 4] = [0x66, 0x6d, 0x74, 0x20];

/// `"data"`, which opens the data subchunk.
pub const DATA_ID: [u8; 4] = [0x64, 0x61, 0x74, 0x61];

/// Copies a slice of four bytes into a tag.
pub fn read_tag(bytes: &[u8]) -> (tag: [u8; 4])
    requires
        bytes@.len() == 4,
    ensures
        tag@ == bytes@,
{
    let tag: [u8; 4] = [bytes[0], bytes[1], bytes[2], bytes[3]];
    assert(tag@ =~= bytes@);
    tag
}

/// Whether two tags hold the same bytes.
pub fn same_tag(a: &[u8; 4], b: &[u8; 4]) -> (same: bool)
    ensures
        same == (a@ == b@),
{
    let same: bool = a[0] == b[0] && a[1] == b[1] && a[2] == b[2] && a[3] == b[3];
    assert(same == (a@ =~= b@));
    same
}

/// Appends the four bytes of `tag` to `out`.
pub fn write_tag(out: &mut Vec<u8>, tag: &[u8; 4])
    ensures
        final(out)@ == old(out)@ + tag@,
{
    out.push(tag[0]);
    out.push(tag[1]);
    out.push(tag[2]);
    out.push(tag[3]);
}

} // verus!
