//! The twelve-byte header that opens the file: `"RIFF"`, the size of what
//! follows the first eight bytes, and `"WAVE"`.

use vstd::prelude::*;

use crate::endian::{le_bytes_u32, le_u32, read_buffer_as_u32, write_u32_le};
use crate::error::WavError;
use crate::tag::{read_tag, same_tag, write_tag, RIFF_ID, WAVE_ID};

verus! {

/// The header chunk as it is held in memory.
#[derive(Clone, Copy, Debug)]
pub struct RiffHeader {
    id: [u8; 4],
    size: u32,
    format: [u8; 4],
}

/// What a [`RiffHeader`] stands for.
pub struct RiffHeaderView {
    pub id: Seq<u8>,
    pub size: u32,
    pub format: Seq<u8>,
}

impl RiffHeaderView {
    /// Both tags are the required ones.
    pub open spec fn wf(self) -> bool {
        &&& self.id == RIFF_ID@
        &&& self.format == WAVE_ID@
    }

    /// The header that `bytes` spell, if they spell one: exactly twelve
    /// bytes, `"RIFF"` first and `"WAVE"` last. The size is taken as it
    /// stands.
    pub open spec fn decoding(bytes: Seq<u8>) -> Option<RiffHeaderView> {
        if bytes.len() == 12 && bytes.subrange(0, 4) == RIFF_ID@ && bytes.subrange(8, 12)
            == WAVE_ID@ {
            Some(
                RiffHeaderView {
                    id: bytes.subrange(0, 4),
                    size: le_u32(bytes.subrange(4, 8)) as u32,
                    format: bytes.subrange(8, 12),
                },
            )
        } else {
            None
        }
    }

    /// The bytes of the header in file order.
    pub open spec fn encoding(self) -> Seq<u8> {
        self.id + le_bytes_u32(self.size) + self.format
    }

    /// The header after the payload was cut to half: the 36 bytes that
    /// lie between the size field and the payload stay, the rest is
    /// halved, rounding down.
    pub open spec fn reflect_double_speed(self) -> RiffHeaderView
        recommends
            self.size >= 36,
    {
        RiffHeaderView { size: ((self.size - 36) / 2 + 36) as u32, ..self }
    }
}

impl View for RiffHeader {
    type V = RiffHeaderView;

    closed spec fn view(&self) -> RiffHeaderView {
        RiffHeaderView { id: self.id@, size: self.size, format: self.format@ }
    }
}

impl RiffHeader {
    /// Decodes the header from the twelve bytes that hold it.
    pub fn new(buf: &[u8]) -> (r: Result<RiffHeader, WavError>)
        ensures
            match RiffHeaderView::decoding(buf@) {
                Some(v) => r matches Ok(h) && h@ == v,
                None => r matches Err(e) && e == WavError::MalformedInput,
            },
            r matches Ok(h) ==> h@.wf(),
    {
        if buf.len() != 12 {
            return Err(WavError::MalformedInput);
        }
        let id: [u8; 4] = read_tag(&buf[0..4]);
        if !same_tag(&id, &RIFF_ID) {
            return Err(WavError::MalformedInput);
        }
        let size: u32 = read_buffer_as_u32(&buf[4..8])?;
        let format: [u8; 4] = read_tag(&buf[8..12]);
        if !same_tag(&format, &WAVE_ID) {
            return Err(WavError::MalformedInput);
        }
        Ok(RiffHeader { id, size, format })
    }

    /// Appends the twelve bytes of the header to `out`.
    pub fn write_into(&self, out: &mut Vec<u8>)
        ensures
            final(out)@ == old(out)@ + self@.encoding(),
    {
        write_tag(out, &self.id);
        write_u32_le(out, self.size);
        write_tag(out, &self.format);
    }

    /// Adjusts the size for a payload cut to half.
    pub fn reflect_double_speed(&mut self)
        requires
            old(self)@.size >= 36,
        ensures
            final(self)@ == old(self)@.reflect_double_speed(),
    {
        self.size = ((self.size - 36) / 2) + 36;
    }

    /// The size field.
    pub fn size(&self) -> (size: u32)
        ensures
            size == self@.size,
    {
        self.size
    }
}

} // verus!
