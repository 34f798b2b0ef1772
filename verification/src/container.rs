//! The container reader: decompression of the asset and demultiplexing of
//! its tag stream.
//!
//! The decompressed stream is a sequence of tags, each framed by a
//! little-endian 16-bit word whose upper ten bits are the tag code and whose
//! lower six bits are the payload length; a length of `0x3f` means the real
//! length follows as a little-endian 32-bit word. Audio-definition tags
//! (code 14) and streamed-audio-block tags (code 19) append their sound
//! bytes, in encounter order, to the audio buffer; action tags (code 12) are
//! handed to the bytecode interpreter, a successful extraction replacing the
//! chart; every other tag is ignored. Iteration stops at end-of-stream or at
//! the first tag that cannot be read whole.

use vstd::prelude::*;

use crate::bytecode::{copy_range, parse_action, read_u16, read_u32, spec_parse_action, u16_le,
    u32_le};
use crate::note::RuntimeNote;

verus! {

/// What `swf::decompress_swf` yields for a byte buffer: the container
/// version and the decompressed tag stream, or nothing for a buffer that is
/// not a valid compressed container. The result depends on the bytes alone.
pub uninterp spec fn swf_decompress(bytes: Seq<u8>) -> Option<(u8, Seq<u8>)>;

/// Relies on `swf::decompress_swf`: it reads the container signature,
/// inflates the body, parses and strips the header fields, and hands back
/// the version together with the remaining tag stream; it fails if, and only
/// if, the buffer is not a valid compressed container, and its result is a
/// function of the input bytes alone.
#[verifier::external_body]
pub(crate) fn decompress_container(bytes: &Vec<u8>) -> (r: Option<(u8, Vec<u8>)>)
    ensures
        r is Some <==> swf_decompress(bytes@) is Some,
        r matches Some(p) ==> swf_decompress(bytes@) == Some((p.0, p.1@)),
{
    match swf::decompress_swf(bytes.as_slice()) {
        Ok(buf) => Some((buf.header.version(), buf.data)),
        Err(_) => None,
    }
}

/// The frame of the tag at position `i`: its code, the position of its
/// payload, and the payload length; nothing if the stream ends or the frame
/// reaches past it.
pub open spec fn tag_frame(d: Seq<u8>, i: int) -> Option<(int, int, int)> {
    if i < 0 || i + 2 > d.len() {
        None
    } else {
        let cl = u16_le(d, i);
        let code = cl / 64;
        let sl = cl % 64;
        if sl == 63 {
            if i + 6 > d.len() {
                None
            } else {
                let l = u32_le(d, i + 2);
                if i + 6 + l > d.len() {
                    None
                } else {
                    Some((code, i + 6, l))
                }
            }
        } else {
            if i + 2 + sl > d.len() {
                None
            } else {
                Some((code, i + 2, sl))
            }
        }
    }
}

/// The demultiplexing of the tag stream from position `i` on: the audio
/// bytes accumulated across sound tags, and the chart of the last action tag
/// whose extraction succeeded. An audio-definition tag too short for its
/// seven-byte sound header truncates the stream, as does any unreadable
/// frame.
pub open spec fn scan_tags(d: Seq<u8>, i: int, audio: Seq<u8>, chart: Seq<RuntimeNote>) -> (
    Seq<u8>,
    Seq<RuntimeNote>,
)
    decreases d.len() - i,
{
    match tag_frame(d, i) {
        None => (audio, chart),
        Some((code, b, l)) => {
            let payload = d.subrange(b, b + l);
            if code == 14 {
                if l < 7 {
                    (audio, chart)
                } else {
                    scan_tags(d, b + l, audio + payload.skip(7), chart)
                }
            } else if code == 19 {
                scan_tags(d, b + l, audio + payload, chart)
            } else if code == 12 {
                match spec_parse_action(payload) {
                    Ok(notes) => scan_tags(d, b + l, audio, notes),
                    Err(_) => scan_tags(d, b + l, audio, chart),
                }
            } else {
                scan_tags(d, b + l, audio, chart)
            }
        },
    }
}

/// Appends the bytes of `[start, end)` to a buffer.
fn extend_from_range(out: &mut Vec<u8>, d: &Vec<u8>, start: usize, end: usize)
    requires
        start <= end <= d@.len(),
    ensures
        final(out)@ == old(out)@ + d@.subrange(start as int, end as int),
{
    let mut k = start;
    proof {
        assert(out@ =~= old(out)@ + d@.subrange(start as int, start as int));
    }
    while k < end
        invariant
            start <= k <= end <= d@.len(),
            out@ == old(out)@ + d@.subrange(start as int, k as int),
        decreases end - k,
    {
        out.push(d[k]);
        proof {
            assert(out@ =~= old(out)@ + d@.subrange(start as int, k + 1));
        }
        k = k + 1;
    }
}

/// Walks the whole tag stream once, accumulating audio bytes and replacing
/// the chart with each successfully extracted action tag; see [`scan_tags`].
pub fn scan_stream(d: &Vec<u8>, audio: &mut Vec<u8>, chart: &mut Vec<RuntimeNote>)
    ensures
        (final(audio)@, final(chart)@) == scan_tags(d@, 0, old(audio)@, old(chart)@),
{
    let mut i: usize = 0;
    let mut running = true;
    while running
        invariant
            i <= d@.len(),
            running ==> scan_tags(d@, 0, old(audio)@, old(chart)@) == scan_tags(
                d@,
                i as int,
                audio@,
                chart@,
            ),
            !running ==> (audio@, chart@) == scan_tags(d@, 0, old(audio)@, old(chart)@),
        decreases d@.len() - i + (if running { 1int } else { 0int }),
    {
        let ghost pre_i = i as int;
        let ghost pre_audio = audio@;
        let ghost pre_chart = chart@;
        if d.len() - i < 2 {
            running = false;
        } else {
            let cl = read_u16(d, i);
            let code = cl / 64;
            let sl = (cl % 64) as usize;
            let b: usize;
            let l: usize;
            if sl == 63 {
                if d.len() - i < 6 {
                    running = false;
                    continue ;
                }
                let l32 = read_u32(d, i + 2);
                if ((d.len() - i - 6) as u64) < l32 as u64 {
                    running = false;
                    continue ;
                }
                b = i + 6;
                l = l32 as usize;
            } else {
                if d.len() - i - 2 < sl {
                    running = false;
                    continue ;
                }
                b = i + 2;
                l = sl;
            }
            if code == 14 {
                // an audio-definition tag: skip the seven-byte sound header
                if l < 7 {
                    running = false;
                } else {
                    extend_from_range(audio, d, b + 7, b + l);
                    proof {
                        assert(d@.subrange(b as int, b + l).skip(7) =~= d@.subrange(
                            b + 7,
                            b + l,
                        ));
                    }
                    i = b + l;
                }
            } else if code == 19 {
                // a streamed-audio block: append it whole
                extend_from_range(audio, d, b, b + l);
                i = b + l;
            } else if code == 12 {
                // an action tag: a successful extraction replaces the chart
                let body = copy_range(d, b, b + l);
                match parse_action(&body) {
                    Ok(notes) => {
                        *chart = notes;
                    },
                    Err(_) => {},
                }
                i = b + l;
            } else {
                i = b + l;
            }
            proof {
                assert(scan_tags(d@, pre_i, pre_audio, pre_chart) == scan_tags(
                    d@,
                    i as int,
                    audio@,
                    chart@,
                ));
            }
        }
    }
}

} // verus!
