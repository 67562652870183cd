//! What holds of decoding, encoding and doubling the speed, whatever the
//! bytes.

use vstd::prelude::*;

use crate::data::{
    lemma_retained_prefix_index, lemma_retained_prefix_len, retained, retained_len,
    DataSubchunkView,
};
use crate::endian::{
    le_bytes_u16, le_bytes_u32, le_u16, le_u32, lemma_le_bytes_of_u16, lemma_le_bytes_of_u32,
    lemma_le_u16_of_bytes, lemma_le_u32_of_bytes,
};
use crate::format::FormatSubchunkView;
use crate::riff::RiffHeaderView;
use crate::tag::{DATA_ID, FMT_ID, RIFF_ID, WAVE_ID};
use crate::wav::WavView;

verus! {

/// A header that was decoded from twelve bytes encodes to those bytes.
pub proof fn lemma_header_decode_then_encode(bytes: Seq<u8>)
    requires
        RiffHeaderView::decoding(bytes) is Some,
    ensures
        RiffHeaderView::decoding(bytes)->Some_0.encoding() == bytes,
        RiffHeaderView::decoding(bytes)->Some_0.wf(),
{
    lemma_le_bytes_of_u32(bytes.subrange(4, 8));
    assert(RiffHeaderView::decoding(bytes)->Some_0.encoding() =~= bytes);
}

/// A format subchunk that was decoded from twenty-four bytes encodes to
/// those bytes.
pub proof fn lemma_format_decode_then_encode(bytes: Seq<u8>)
    requires
        FormatSubchunkView::decoding(bytes) is Some,
    ensures
        FormatSubchunkView::decoding(bytes)->Some_0.encoding() == bytes,
        FormatSubchunkView::decoding(bytes)->Some_0.wf(),
{
    lemma_le_bytes_of_u32(bytes.subrange(4, 8));
    lemma_le_bytes_of_u16(bytes.subrange(8, 10));
    lemma_le_bytes_of_u16(bytes.subrange(10, 12));
    lemma_le_bytes_of_u32(bytes.subrange(12, 16));
    lemma_le_bytes_of_u32(bytes.subrange(16, 20));
    lemma_le_bytes_of_u16(bytes.subrange(20, 22));
    lemma_le_bytes_of_u16(bytes.subrange(22, 24));
    assert(FormatSubchunkView::decoding(bytes)->Some_0.encoding() =~= bytes);
}

/// A data subchunk that was decoded from bytes encodes to those bytes,
/// whether or not it declares the length of its payload.
pub proof fn lemma_data_decode_then_encode(bytes: Seq<u8>)
    requires
        DataSubchunkView::decoding(bytes) is Some,
    ensures
        DataSubchunkView::decoding(bytes)->Some_0.encoding() == bytes,
        DataSubchunkView::decoding(bytes)->Some_0.wf(),
{
    lemma_le_bytes_of_u32(bytes.subrange(4, 8));
    assert(DataSubchunkView::decoding(bytes)->Some_0.encoding() =~= bytes);
}

/// Decoding a buffer and encoding the result, with no change between,
/// gives the buffer back byte for byte. This holds of every buffer that
/// decodes, also of one whose data subchunk declares another size than
/// the payload has.
pub proof fn lemma_decode_then_encode(bytes: Seq<u8>)
    requires
        WavView::decoding(bytes) is Some,
    ensures
        WavView::decoding(bytes)->Some_0.encoding() == bytes,
        WavView::decoding(bytes)->Some_0.wf(),
{
    let n: int = bytes.len() as int;
    lemma_header_decode_then_encode(bytes.subrange(0, 12));
    lemma_format_decode_then_encode(bytes.subrange(12, 36));
    lemma_data_decode_then_encode(bytes.subrange(36, n));
    assert(bytes.subrange(0, 12) + bytes.subrange(12, 36) + bytes.subrange(36, n) =~= bytes);
}

/// Encoding a file whose chunks carry their required tags and decoding
/// the bytes gives the file back.
pub proof fn lemma_encode_then_decode(wav: WavView)
    requires
        wav.wf(),
    ensures
        WavView::decoding(wav.encoding()) == Some(wav),
{
    let bytes: Seq<u8> = wav.encoding();
    let n: int = bytes.len() as int;
    let h: Seq<u8> = wav.header.encoding();
    let f: Seq<u8> = wav.format.encoding();
    let d: Seq<u8> = wav.data.encoding();
    lemma_le_u32_of_bytes(wav.header.size);
    lemma_le_u32_of_bytes(wav.format.size);
    lemma_le_u16_of_bytes(wav.format.audio_format);
    lemma_le_u16_of_bytes(wav.format.num_channels);
    lemma_le_u32_of_bytes(wav.format.sample_rate);
    lemma_le_u32_of_bytes(wav.format.byte_rate);
    lemma_le_u16_of_bytes(wav.format.block_align);
    lemma_le_u16_of_bytes(wav.format.bits_per_sample);
    lemma_le_u32_of_bytes(wav.data.size);
    assert(h.len() == 12 && f.len() == 24 && d.len() >= 8);
    assert(bytes.subrange(0, 12) =~= h);
    assert(bytes.subrange(12, 36) =~= f);
    assert(bytes.subrange(36, n) =~= d);
    assert(h.subrange(0, 4) =~= wav.header.id);
    assert(h.subrange(4, 8) =~= le_bytes_u32(wav.header.size));
    assert(h.subrange(8, 12) =~= wav.header.format);
    assert(RiffHeaderView::decoding(h) == Some(wav.header));
    assert(f.subrange(0, 4) =~= wav.format.id);
    assert(f.subrange(4, 8) =~= le_bytes_u32(wav.format.size));
    assert(f.subrange(8, 10) =~= le_bytes_u16(wav.format.audio_format));
    assert(f.subrange(10, 12) =~= le_bytes_u16(wav.format.num_channels));
    assert(f.subrange(12, 16) =~= le_bytes_u32(wav.format.sample_rate));
    assert(f.subrange(16, 20) =~= le_bytes_u32(wav.format.byte_rate));
    assert(f.subrange(20, 22) =~= le_bytes_u16(wav.format.block_align));
    assert(f.subrange(22, 24) =~= le_bytes_u16(wav.format.bits_per_sample));
    assert(FormatSubchunkView::decoding(f) == Some(wav.format));
    assert(d.subrange(0, 4) =~= wav.data.id);
    assert(d.subrange(4, 8) =~= le_bytes_u32(wav.data.size));
    assert(d.subrange(8, d.len() as int) =~= wav.data.data);
    assert(DataSubchunkView::decoding(d) == Some(wav.data));
}

/// Which buffers decode: those of at least forty-four bytes that open
/// with `"RIFF"`, hold `"WAVE"` at offset 8, `"fmt "` at offset 12, the
/// size 16 at offset 16, the format code 1 at offset 20 and `"data"` at
/// offset 36. Nothing else is asked of a buffer.
pub proof fn lemma_decoding_accepts(bytes: Seq<u8>)
    ensures
        WavView::decoding(bytes) is Some <==> {
            &&& bytes.len() >= 44
            &&& bytes.subrange(0, 4) == RIFF_ID@
            &&& bytes.subrange(8, 12) == WAVE_ID@
            &&& bytes.subrange(12, 16) == FMT_ID@
            &&& le_u32(bytes.subrange(16, 20)) == 16
            &&& le_u16(bytes.subrange(20, 22)) == 1
            &&& bytes.subrange(36, 40) == DATA_ID@
        },
{
    if bytes.len() >= 44 {
        let n: int = bytes.len() as int;
        let h: Seq<u8> = bytes.subrange(0, 12);
        let f: Seq<u8> = bytes.subrange(12, 36);
        let d: Seq<u8> = bytes.subrange(36, n);
        assert(h.subrange(0, 4) =~= bytes.subrange(0, 4));
        assert(h.subrange(8, 12) =~= bytes.subrange(8, 12));
        assert(f.subrange(0, 4) =~= bytes.subrange(12, 16));
        assert(f.subrange(4, 8) =~= bytes.subrange(16, 20));
        assert(f.subrange(8, 10) =~= bytes.subrange(20, 22));
        assert(d.subrange(0, 4) =~= bytes.subrange(36, 40));
    }
}

/// A buffer is refused when its first four bytes are not `"RIFF"`, when
/// its bytes 8 to 11 are not `"WAVE"`, when its format subchunk declares
/// a size other than 16 or a format code other than 1, or when its data
/// subchunk does not open with `"data"`.
pub proof fn lemma_decoding_rejects(bytes: Seq<u8>)
    ensures
        bytes.len() >= 4 && bytes.subrange(0, 4) != RIFF_ID@ ==> WavView::decoding(bytes) is None,
        bytes.len() >= 12 && bytes.subrange(8, 12) != WAVE_ID@ ==> WavView::decoding(bytes) is None,
        bytes.len() >= 20 && le_u32(bytes.subrange(16, 20)) != 16 ==> WavView::decoding(bytes)
            is None,
        bytes.len() >= 22 && le_u16(bytes.subrange(20, 22)) != 1 ==> WavView::decoding(bytes)
            is None,
        bytes.len() >= 40 && bytes.subrange(36, 40) != DATA_ID@ ==> WavView::decoding(bytes)
            is None,
{
    lemma_decoding_accepts(bytes);
}

/// After decoding, the header's size agrees with the declared sizes of
/// the subchunks exactly when the buffer says so: when the number at
/// offset 4 is 36 more than the number at offset 40.
pub proof fn lemma_decoded_header_size(bytes: Seq<u8>)
    requires
        WavView::decoding(bytes) is Some,
    ensures
        WavView::decoding(bytes)->Some_0.header_size_agrees() <==> le_u32(bytes.subrange(4, 8))
            == 36 + le_u32(bytes.subrange(40, 44)),
{
    let n: int = bytes.len() as int;
    let h: Seq<u8> = bytes.subrange(0, 12);
    let d: Seq<u8> = bytes.subrange(36, n);
    assert(h.subrange(4, 8) =~= bytes.subrange(4, 8));
    assert(d.subrange(4, 8) =~= bytes.subrange(40, 44));
    lemma_le_bytes_of_u32(bytes.subrange(4, 8));
    lemma_le_bytes_of_u32(bytes.subrange(40, 44));
}

/// After decoding, all sizes agree exactly when the buffer declares its
/// own length: the number at offset 4 is the length less 8, and the
/// number at offset 40 is the length less 44.
pub proof fn lemma_decoded_sizes(bytes: Seq<u8>)
    requires
        WavView::decoding(bytes) is Some,
    ensures
        WavView::decoding(bytes)->Some_0.sizes_agree() <==> {
            &&& le_u32(bytes.subrange(4, 8)) == bytes.len() - 8
            &&& le_u32(bytes.subrange(40, 44)) == bytes.len() - 44
        },
{
    lemma_decoded_header_size(bytes);
    let n: int = bytes.len() as int;
    let d: Seq<u8> = bytes.subrange(36, n);
    assert(d.subrange(4, 8) =~= bytes.subrange(40, 44));
    lemma_le_bytes_of_u32(bytes.subrange(40, 44));
}

/// Of `n` bytes, half are retained when `n` is a multiple of 8, and
/// otherwise no fewer than half, rounded down, and at most two more.
pub proof fn lemma_retained_len_bounds(n: nat)
    ensures
        n % 8 == 0 ==> retained_len(n) == n / 2,
        n / 2 <= retained_len(n) <= n / 2 + 2,
{
    let q: int = (n / 8) as int;
    let r: int = (n % 8) as int;
    assert(n == 8 * q + r);
    assert(n / 2 == 4 * q + r / 2);
}

/// Doubling the speed keeps `retained_len` of the payload's bytes: half
/// of them when the length is a multiple of 8, and otherwise four of
/// every full eight and up to four of the rest. The byte at place `j` of
/// what is kept is the byte at place `8 * (j / 4) + j % 4` of the
/// payload.
pub proof fn lemma_double_speed_payload(payload: Seq<u8>)
    ensures
        retained(payload).len() == retained_len(payload.len()),
        payload.len() % 8 == 0 ==> retained(payload).len() == payload.len() / 2,
        payload.len() / 2 <= retained(payload).len() <= payload.len() / 2 + 2,
        forall|j: int|
            0 <= j < retained(payload).len() ==> 0 <= 8 * (j / 4) + j % 4 < payload.len()
                && #[trigger] retained(payload)[j] == payload[8 * (j / 4) + j % 4],
{
    let n: nat = payload.len();
    lemma_retained_prefix_len(payload, n);
    lemma_retained_len_bounds(n);
    assert forall|j: int| 0 <= j < retained(payload).len() implies 0 <= 8 * (j / 4) + j % 4
        < payload.len() && #[trigger] retained(payload)[j] == payload[8 * (j / 4) + j % 4] by {
        lemma_retained_prefix_index(payload, n, j);
    }
}

/// After the speed was doubled, the data subchunk declares the payload
/// that it holds, the header's size is the old one with the part beyond
/// 36 halved, and the tags and the format are as before.
pub proof fn lemma_double_speed_sizes(wav: WavView)
    requires
        wav.can_double_speed(),
    ensures
        wav.double_speed().data.size_matches(),
        wav.double_speed().header.size == (wav.header.size - 36) / 2 + 36,
        wav.double_speed().format == wav.format,
        wav.wf() ==> wav.double_speed().wf(),
{
    lemma_retained_prefix_len(wav.data.data, wav.data.data.len());
}

/// Where all sizes agreed before the speed was doubled, they agree
/// afterwards exactly when the payload's length was a multiple of 8.
/// With any other length the header's size, which is halved, and the
/// declared payload, which is counted, part ways.
pub proof fn lemma_double_speed_keeps_sizes(wav: WavView)
    requires
        wav.sizes_agree(),
        wav.format.wf(),
        wav.can_double_speed(),
    ensures
        wav.double_speed().sizes_agree() <==> wav.data.data.len() % 8 == 0,
{
    lemma_retained_prefix_len(wav.data.data, wav.data.data.len());
    lemma_retained_len_bounds(wav.data.data.len());
}

} // verus!
