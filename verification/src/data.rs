//! The data subchunk: `"data"`, a declared size, and the sample bytes;
//! and the rule by which doubling the speed thins those bytes out.

use vstd::prelude::*;
use vstd::slice::slice_to_vec;

use crate::endian::{le_bytes_u32, le_u32, read_buffer_as_u32, write_bytes, write_u32_le};
use crate::error::WavError;
use crate::tag::{read_tag, same_tag, write_tag, DATA_ID};

verus! {

/// The number of bytes in one frame of 16-bit stereo sound, which is the
/// unit that doubling the speed keeps or drops. It is fixed: the format
/// subchunk's channel count and sample width are not consulted.
pub const FRAME_BYTES: usize = 4;

/// Whether the byte at index `i` of a payload outlives a doubling of the
/// speed: the frames are numbered from 0, and those with an even number
/// stay.
pub open spec fn is_retained(i: int) -> bool {
    (i / 4) % 2 == 0
}

/// The retained bytes among the first `n` of `s`, in their order.
pub open spec fn retained_prefix(s: Seq<u8>, n: nat) -> Seq<u8>
    recommends
        n <= s.len(),
    decreases n,
{
    if n == 0 {
        Seq::empty()
    } else if is_retained(n - 1) {
        retained_prefix(s, (n - 1) as nat).push(s[n - 1])
    } else {
        retained_prefix(s, (n - 1) as nat)
    }
}

/// The retained bytes of `s`, in their order.
pub open spec fn retained(s: Seq<u8>) -> Seq<u8> {
    retained_prefix(s, s.len())
}

/// How many of `n` bytes are retained: four of every full eight, and of
/// a last group that is not full its first four at most.
pub open spec fn retained_len(n: nat) -> nat {
    let rest = n % 8;
    (4 * (n / 8) + if rest < 4 { rest } else { 4 }) as nat
}

/// Among the first `n` bytes, `retained_len(n)` are retained.
pub proof fn lemma_retained_prefix_len(s: Seq<u8>, n: nat)
    ensures
        retained_prefix(s, n).len() == retained_len(n),
    decreases n,
{
    if n > 0 {
        lemma_retained_prefix_len(s, (n - 1) as nat);
    }
}

/// The byte at place `j` of what is retained among the first `n` bytes
/// is the byte at place `8 * (j / 4) + j % 4` of the payload.
pub proof fn lemma_retained_prefix_index(s: Seq<u8>, n: nat, j: int)
    requires
        n <= s.len(),
        0 <= j < retained_len(n),
    ensures
        0 <= 8 * (j / 4) + j % 4 < n,
        retained_prefix(s, n)[j] == s[8 * (j / 4) + j % 4],
    decreases n,
{
    let m: nat = (n - 1) as nat;
    lemma_retained_prefix_len(s, m);
    if j < retained_len(m) {
        lemma_retained_prefix_index(s, m, j);
    } else {
        assert(is_retained(m as int));
        assert(j == retained_len(m));
        assert(8 * (j / 4) + j % 4 == m);
    }
}

/// The data subchunk as it is held in memory.
#[derive(Clone, Debug)]
pub struct DataSubchunk {
    id: [u8; 4],
    size: u32,
    data: Vec<u8>,
}

/// What a [`DataSubchunk`] stands for.
pub struct DataSubchunkView {
    pub id: Seq<u8>,
    pub size: u32,
    pub data: Seq<u8>,
}

impl DataSubchunkView {
    /// The tag is the required one.
    pub open spec fn wf(self) -> bool {
        self.id == DATA_ID@
    }

    /// The declared size is the number of bytes held.
    pub open spec fn size_matches(self) -> bool {
        self.size == self.data.len()
    }

    /// The subchunk that `bytes` spell, if they spell one: at least
    /// eight bytes, `"data"` first. The declared size is taken as it
    /// stands, and the payload is whatever follows it, be that more or
    /// less than declared.
    pub open spec fn decoding(bytes: Seq<u8>) -> Option<DataSubchunkView> {
        if bytes.len() >= 8 && bytes.subrange(0, 4) == DATA_ID@ {
            Some(
                DataSubchunkView {
                    id: bytes.subrange(0, 4),
                    size: le_u32(bytes.subrange(4, 8)) as u32,
                    data: bytes.subrange(8, bytes.len() as int),
                },
            )
        } else {
            None
        }
    }

    /// The bytes of the subchunk in file order.
    pub open spec fn encoding(self) -> Seq<u8> {
        self.id + le_bytes_u32(self.size) + self.data
    }

    /// Whether the payload that a doubling of the speed leaves can be
    /// declared in the size field.
    pub open spec fn double_speed_fits(self) -> bool {
        retained_len(self.data.len()) <= u32::MAX
    }

    /// The subchunk after a doubling of the speed: the retained bytes,
    /// and their number as the declared size, whatever was declared
    /// before.
    pub open spec fn double_speed(self) -> DataSubchunkView
        recommends
            self.double_speed_fits(),
    {
        DataSubchunkView {
            id: self.id,
            size: retained(self.data).len() as u32,
            data: retained(self.data),
        }
    }
}

impl View for DataSubchunk {
    type V = DataSubchunkView;

    closed spec fn view(&self) -> DataSubchunkView {
        DataSubchunkView { id: self.id@, size: self.size, data: self.data@ }
    }
}

impl DataSubchunk {
    /// Decodes the subchunk from the bytes that hold it, which run to
    /// the end of the file.
    pub fn new(buf: &[u8]) -> (r: Result<DataSubchunk, WavError>)
        ensures
            match DataSubchunkView::decoding(buf@) {
                Some(v) => r matches Ok(d) && d@ == v,
                None => r matches Err(e) && e == WavError::MalformedInput,
            },
            r matches Ok(d) ==> d@.wf(),
    {
        if buf.len() < 8 {
            return Err(WavError::MalformedInput);
        }
        let id: [u8; 4] = read_tag(&buf[0..4]);
        if !same_tag(&id, &DATA_ID) {
            return Err(WavError::MalformedInput);
        }
        let size: u32 = read_buffer_as_u32(&buf[4..8])?;
        let data: Vec<u8> = slice_to_vec(&buf[8..buf.len()]);
        Ok(DataSubchunk { id, size, data })
    }

    /// Appends the bytes of the subchunk to `out`.
    pub fn write_into(&self, out: &mut Vec<u8>)
        ensures
            final(out)@ == old(out)@ + self@.encoding(),
    {
        write_tag(out, &self.id);
        write_u32_le(out, self.size);
        write_bytes(out, self.data.as_slice());
    }

    /// Whether [`DataSubchunk::double_speed`] may be called.
    pub fn double_speed_fits(&self) -> (fits: bool)
        ensures
            fits == self@.double_speed_fits(),
    {
        let n: usize = self.data.len();
        let rest: usize = n % 8;
        let tail: usize = if rest < FRAME_BYTES {
            rest
        } else {
            FRAME_BYTES
        };
        (n / 8) * FRAME_BYTES + tail <= u32::MAX as usize
    }

    /// Drops every second frame of the payload, the first one staying,
    /// and declares the number of bytes that are left.
    pub fn double_speed(&mut self)
        requires
            old(self)@.double_speed_fits(),
        ensures
            final(self)@ == old(self)@.double_speed(),
            final(self)@.size_matches(),
            old(self)@.wf() ==> final(self)@.wf(),
    {
        let n: usize = self.data.len();
        let mut kept: Vec<u8> = Vec::new();
        let mut i: usize = 0;
        while i < n
            invariant
                i <= n,
                n == self.data@.len(),
                kept@ == retained_prefix(self.data@, i as nat),
            decreases n - i,
        {
            if (i / FRAME_BYTES) % 2 == 0 {
                kept.push(self.data[i]);
            }
            i += 1;
        }
        proof {
            lemma_retained_prefix_len(self.data@, n as nat);
        }
        self.size = kept.len() as u32;
        self.data = kept;
    }

    /// The declared size.
    pub fn size(&self) -> (size: u32)
        ensures
            size == self@.size,
    {
        self.size
    }

    /// The payload.
    pub fn data(&self) -> (data: &[u8])
        ensures
            data@ == self@.data,
    {
        self.data.as_slice()
    }
}

} // verus!
