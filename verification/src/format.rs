//! The format subchunk: twenty-four bytes that describe the samples.
//! Only plain PCM is accepted: a declared size of 16 and format code 1.

use vstd::prelude::*;

use crate::endian::{
    le_bytes_u16, le_bytes_u32, le_u16, le_u32, read_buffer_as_u16, read_buffer_as_u32,
    write_u16_le, write_u32_le,
};
use crate::error::WavError;
use crate::tag::{read_tag, same_tag, write_tag, FMT_ID};

verus! {

/// The declared size of a PCM format subchunk.
pub const PCM_FORMAT_SIZE: u32 = 16;

/// The format code of uncompressed PCM.
pub const PCM_AUDIO_FORMAT: u16 = 1;

/// The format subchunk as it is held in memory.
#[derive(Clone, Copy, Debug)]
pub struct FormatSubchunk {
    id: [u8; 4],
    size: u32,
    audio_format: u16,
    num_channels: u16,
    sample_rate: u32,
    byte_rate: u32,
    block_align: u16,
    bits_per_sample: u16,
}

/// What a [`FormatSubchunk`] stands for.
pub struct FormatSubchunkView {
    pub id: Seq<u8>,
    pub size: u32,
    pub audio_format: u16,
    pub num_channels: u16,
    pub sample_rate: u32,
    pub byte_rate: u32,
    pub block_align: u16,
    pub bits_per_sample: u16,
}

impl FormatSubchunkView {
    /// The tag, the declared size and the format code are the required
    /// ones.
    pub open spec fn wf(self) -> bool {
        &&& self.id == FMT_ID@
        &&& self.size == PCM_FORMAT_SIZE
        &&& self.audio_format == PCM_AUDIO_FORMAT
    }

    /// The subchunk that `bytes` spell, if they spell one: exactly
    /// twenty-four bytes, `"fmt "` first, then the size 16 and the format
    /// code 1. The other fields are taken as they stand.
    pub open spec fn decoding(bytes: Seq<u8>) -> Option<FormatSubchunkView> {
        if bytes.len() == 24 && bytes.subrange(0, 4) == FMT_ID@ && le_u32(bytes.subrange(4, 8))
            == PCM_FORMAT_SIZE && le_u16(bytes.subrange(8, 10)) == PCM_AUDIO_FORMAT {
            Some(
                FormatSubchunkView {
                    id: bytes.subrange(0, 4),
                    size: le_u32(bytes.subrange(4, 8)) as u32,
                    audio_format: le_u16(bytes.subrange(8, 10)) as u16,
                    num_channels: le_u16(bytes.subrange(10, 12)) as u16,
                    sample_rate: le_u32(bytes.subrange(12, 16)) as u32,
                    byte_rate: le_u32(bytes.subrange(16, 20)) as u32,
                    block_align: le_u16(bytes.subrange(20, 22)) as u16,
                    bits_per_sample: le_u16(bytes.subrange(22, 24)) as u16,
                },
            )
        } else {
            None
        }
    }

    /// The bytes of the subchunk in file order.
    pub open spec fn encoding(self) -> Seq<u8> {
        self.id + le_bytes_u32(self.size) + le_bytes_u16(self.audio_format) + le_bytes_u16(
            self.num_channels,
        ) + le_bytes_u32(self.sample_rate) + le_bytes_u32(self.byte_rate) + le_bytes_u16(
            self.block_align,
        ) + le_bytes_u16(self.bits_per_sample)
    }
}

impl View for FormatSubchunk {
    type V = FormatSubchunkView;

    closed spec fn view(&self) -> FormatSubchunkView {
        FormatSubchunkView {
            id: self.id@,
            size: self.size,
            audio_format: self.audio_format,
            num_channels: self.num_channels,
            sample_rate: self.sample_rate,
            byte_rate: self.byte_rate,
            block_align: self.block_align,
            bits_per_sample: self.bits_per_sample,
        }
    }
}

impl FormatSubchunk {
    /// Decodes the subchunk from the twenty-four bytes that hold it.
    pub fn new(buf: &[u8]) -> (r: Result<FormatSubchunk, WavError>)
        ensures
            match FormatSubchunkView::decoding(buf@) {
                Some(v) => r matches Ok(f) && f@ == v,
                None => r matches Err(e) && e == WavError::MalformedInput,
            },
            r matches Ok(f) ==> f@.wf(),
    {
        if buf.len() != 24 {
            return Err(WavError::MalformedInput);
        }
        let id: [u8; 4] = read_tag(&buf[0..4]);
        if !same_tag(&id, &FMT_ID) {
            return Err(WavError::MalformedInput);
        }
        let size: u32 = read_buffer_as_u32(&buf[4..8])?;
        if size != PCM_FORMAT_SIZE {
            return Err(WavError::MalformedInput);
        }
        let audio_format: u16 = read_buffer_as_u16(&buf[8..10])?;
        if audio_format != PCM_AUDIO_FORMAT {
            return Err(WavError::MalformedInput);
        }
        let num_channels: u16 = read_buffer_as_u16(&buf[10..12])?;
        let sample_rate: u32 = read_buffer_as_u32(&buf[12..16])?;
        let byte_rate: u32 = read_buffer_as_u32(&buf[16..20])?;
        let block_align: u16 = read_buffer_as_u16(&buf[20..22])?;
        let bits_per_sample: u16 = read_buffer_as_u16(&buf[22..24])?;
        Ok(
            FormatSubchunk {
                id,
                size,
                audio_format,
                num_channels,
                sample_rate,
                byte_rate,
                block_align,
                bits_per_sample,
            },
        )
    }

    /// Appends the twenty-four bytes of the subchunk to `out`.
    pub fn write_into(&self, out: &mut Vec<u8>)
        ensures
            final(out)@ == old(out)@ + self@.encoding(),
    {
        write_tag(out, &self.id);
        write_u32_le(out, self.size);
        write_u16_le(out, self.audio_format);
        write_u16_le(out, self.num_channels);
        write_u32_le(out, self.sample_rate);
        write_u32_le(out, self.byte_rate);
        write_u16_le(out, self.block_align);
        write_u16_le(out, self.bits_per_sample);
    }

    /// The number of channels: 1 for mono, 2 for stereo.
    pub fn num_channels(&self) -> (n: u16)
        ensures
            n == self@.num_channels,
    {
        self.num_channels
    }

    /// The number of frames per second.
    pub fn sample_rate(&self) -> (n: u32)
        ensures
            n == self@.sample_rate,
    {
        self.sample_rate
    }

    /// The number of bytes per second.
    pub fn byte_rate(&self) -> (n: u32)
        ensures
            n == self@.byte_rate,
    {
        self.byte_rate
    }

    /// The number of bytes per frame.
    pub fn block_align(&self) -> (n: u16)
        ensures
            n == self@.block_align,
    {
        self.block_align
    }

    /// The number of bits per sample.
    pub fn bits_per_sample(&self) -> (n: u16)
        ensures
            n == self@.bits_per_sample,
    {
        self.bits_per_sample
    }
}

} // verus!
