//! A whole WAV file: the header, the format subchunk and the data
//! subchunk, in that order and with nothing between them.

use vstd::prelude::*;

use crate::data::{DataSubchunk, DataSubchunkView};
use crate::error::WavError;
use crate::format::{FormatSubchunk, FormatSubchunkView};
use crate::riff::{RiffHeader, RiffHeaderView};

verus! {

/// The number of bytes that the header and the format subchunk take
/// together.
pub const DATA_OFFSET: usize = 36;

/// A decoded WAV file.
#[derive(Clone, Debug)]
pub struct Wav {
    header: RiffHeader,
    format: FormatSubchunk,
    data: DataSubchunk,
}

/// What a [`Wav`] stands for.
pub struct WavView {
    pub header: RiffHeaderView,
    pub format: FormatSubchunkView,
    pub data: DataSubchunkView,
}

impl WavView {
    /// Each chunk carries its required tags, and the format is PCM.
    pub open spec fn wf(self) -> bool {
        &&& self.header.wf()
        &&& self.format.wf()
        &&& self.data.wf()
    }

    /// The header's size counts what follows it: the form type, and the
    /// two subchunks with their eight-byte openings, by their declared
    /// sizes.
    pub open spec fn header_size_agrees(self) -> bool {
        self.header.size == 4 + 8 + self.format.size + 8 + self.data.size
    }

    /// The header's size agrees with the declared sizes, and the data
    /// subchunk declares the payload that it holds.
    pub open spec fn sizes_agree(self) -> bool {
        &&& self.header_size_agrees()
        &&& self.data.size_matches()
    }

    /// The file that `bytes` spell, if they spell one: the first twelve
    /// bytes a header, the next twenty-four a format subchunk, the rest
    /// a data subchunk.
    pub open spec fn decoding(bytes: Seq<u8>) -> Option<WavView> {
        if bytes.len() < 36 {
            None
        } else {
            match (
                RiffHeaderView::decoding(bytes.subrange(0, 12)),
                FormatSubchunkView::decoding(bytes.subrange(12, 36)),
                DataSubchunkView::decoding(bytes.subrange(36, bytes.len() as int)),
            ) {
                (Some(header), Some(format), Some(data)) => Some(WavView { header, format, data }),
                _ => None,
            }
        }
    }

    /// The bytes of the file.
    pub open spec fn encoding(self) -> Seq<u8> {
        self.header.encoding() + self.format.encoding() + self.data.encoding()
    }

    /// Whether the speed can be doubled: the header's size covers the 36
    /// bytes that precede the payload, and what is left of the payload
    /// can be declared.
    pub open spec fn can_double_speed(self) -> bool {
        &&& self.header.size >= 36
        &&& self.data.double_speed_fits()
    }

    /// The file at double speed.
    pub open spec fn double_speed(self) -> WavView
        recommends
            self.can_double_speed(),
    {
        WavView {
            header: self.header.reflect_double_speed(),
            format: self.format,
            data: self.data.double_speed(),
        }
    }
}

impl View for Wav {
    type V = WavView;

    closed spec fn view(&self) -> WavView {
        WavView { header: self.header@, format: self.format@, data: self.data@ }
    }
}

impl Wav {
    /// Decodes a complete file.
    pub fn new(buf: &[u8]) -> (r: Result<Wav, WavError>)
        ensures
            match WavView::decoding(buf@) {
                Some(v) => r matches Ok(w) && w@ == v,
                None => r matches Err(e) && e == WavError::MalformedInput,
            },
            r matches Ok(w) ==> w@.wf(),
    {
        if buf.len() < DATA_OFFSET {
            return Err(WavError::MalformedInput);
        }
        let header: RiffHeader = RiffHeader::new(&buf[0..12])?;
        let format: FormatSubchunk = FormatSubchunk::new(&buf[12..36])?;
        let data: DataSubchunk = DataSubchunk::new(&buf[36..buf.len()])?;
        Ok(Wav { header, format, data })
    }

    /// Whether [`Wav::double_speed`] may be called.
    pub fn can_double_speed(&self) -> (can: bool)
        ensures
            can == self@.can_double_speed(),
    {
        self.header.size() >= 36 && self.data.double_speed_fits()
    }

    /// Doubles the speed in place: every second frame is dropped, and
    /// both sizes follow.
    pub fn double_speed(&mut self)
        requires
            old(self)@.can_double_speed(),
        ensures
            final(self)@ == old(self)@.double_speed(),
            final(self)@.data.size_matches(),
            old(self)@.wf() ==> final(self)@.wf(),
    {
        self.header.reflect_double_speed();
        self.data.double_speed();
    }

    /// Encodes the file.
    pub fn write_contents(&self) -> (out: Vec<u8>)
        ensures
            out@ == self@.encoding(),
    {
        let mut out: Vec<u8> = Vec::new();
        self.header.write_into(&mut out);
        self.format.write_into(&mut out);
        self.data.write_into(&mut out);
        out
    }

    /// The header.
    pub fn header(&self) -> (header: &RiffHeader)
        ensures
            header@ == self@.header,
    {
        &self.header
    }

    /// The format subchunk.
    pub fn format(&self) -> (format: &FormatSubchunk)
        ensures
            format@ == self@.format,
    {
        &self.format
    }

    /// The data subchunk.
    pub fn data(&self) -> (data: &DataSubchunk)
        ensures
            data@ == self@.data,
    {
        &self.data
    }
}

} // verus!
