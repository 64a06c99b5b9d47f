use vstd::prelude::*;
use crate::source::ByteSource;
use crate::source::IterRead;

verus! {

/// Tag code of a frame-advance tag: it carries no audio bytes and only
/// moves the frame counter forward.
pub const SHOW_FRAME_CODE: u16 = 1;

/// Tag code of a streaming-sound-block tag: its payload, after a four-byte
/// block header, is raw audio data for one playback interval.
pub const SOUND_STREAM_BLOCK_CODE: u16 = 19;

/// Length of the block-level header at the front of every
/// streaming-sound-block payload; exactly these bytes are discarded before
/// any payload byte is exposed.
pub const BLOCK_HEADER_LEN: usize = 4;

/// The 16-bit little-endian value at offset `p`.
pub open spec fn le16(data: Seq<u8>, p: int) -> int {
    data[p] + 256 * data[p + 1]
}

/// The 32-bit little-endian value at offset `p`.
pub open spec fn le32(data: Seq<u8>, p: int) -> int {
    data[p] + 256 * data[p + 1] + 65536 * data[p + 2] + 16777216 * data[p + 3]
}

/// The numeric code of the tag whose record starts at offset `p`: the top
/// ten bits of the leading 16-bit word.
pub open spec fn tag_code(data: Seq<u8>, p: int) -> int {
    le16(data, p) / 64
}

/// The length field packed into the tag's leading word: the low six bits.
/// The all-ones value marks a long record whose real length follows in a
/// 32-bit word.
pub open spec fn tag_has_long_header(data: Seq<u8>, p: int) -> bool {
    le16(data, p) % 64 == 63
}

/// Offset of the first body byte of the tag starting at `p`.
pub open spec fn tag_body(data: Seq<u8>, p: int) -> int {
    if tag_has_long_header(data, p) {
        p + 6
    } else {
        p + 2
    }
}

/// Declared body length of the tag starting at `p`.
pub open spec fn tag_len(data: Seq<u8>, p: int) -> int {
    if tag_has_long_header(data, p) {
        le32(data, p + 2)
    } else {
        le16(data, p) % 64
    }
}

/// Offset just past the tag starting at `p`: where the next tag record
/// begins.
pub open spec fn tag_end(data: Seq<u8>, p: int) -> int {
    tag_body(data, p) + tag_len(data, p)
}

/// Whether a whole tag record can be read at offset `p`: its header lies
/// within the data and its declared length does not run past the end.  A
/// failure here ends scanning silently, exactly like running out of data.
pub open spec fn tag_readable(data: Seq<u8>, p: int) -> bool {
    &&& 0 <= p
    &&& p + 2 <= data.len()
    &&& (tag_has_long_header(data, p) ==> p + 6 <= data.len())
    &&& tag_end(data, p) <= data.len()
}

/// Whether the tag at `p` is a streaming-sound block too short to hold its
/// own four-byte block header.  The original container format never writes
/// one; scanning treats it as malformed and stops silently.
pub open spec fn tag_is_short_block(data: Seq<u8>, p: int) -> bool {
    tag_code(data, p) == SOUND_STREAM_BLOCK_CODE as int
        && tag_len(data, p) < BLOCK_HEADER_LEN as int
}

/// The audio payload of the streaming-sound block at `p`: its body with
/// the four-byte block header stripped.
pub open spec fn block_payload(data: Seq<u8>, p: int) -> Seq<u8> {
    data.subrange(tag_body(data, p) + BLOCK_HEADER_LEN as int, tag_end(data, p))
}

/// The whole demuxed byte sequence from offset `p` on: the concatenation,
/// in tag order, of every streaming-sound block's payload, each with its
/// four-byte block header stripped.  Tags of any other code contribute
/// nothing; an unreadable or truncated record, or a sound block shorter
/// than its own block header, ends the sequence silently.
pub open spec fn demuxed_from(data: Seq<u8>, p: int) -> Seq<u8>
    decreases data.len() - p,
{
    if !tag_readable(data, p) || tag_is_short_block(data, p) {
        Seq::empty()
    } else if tag_code(data, p) == SOUND_STREAM_BLOCK_CODE as int {
        block_payload(data, p) + demuxed_from(data, tag_end(data, p))
    } else {
        demuxed_from(data, tag_end(data, p))
    }
}

/// How many frame-advance tags a full scan from offset `p` passes before
/// it stops, at the end of the data or at the first malformed record.
pub open spec fn show_frames_from(data: Seq<u8>, p: int) -> nat
    decreases data.len() - p,
{
    if !tag_readable(data, p) || tag_is_short_block(data, p) {
        0
    } else if tag_code(data, p) == SHOW_FRAME_CODE as int {
        show_frames_from(data, tag_end(data, p)) + 1
    } else {
        show_frames_from(data, tag_end(data, p))
    }
}

/// Every counted frame-advance tag occupies at least two bytes of data, so
/// the count from any offset is bounded by half the bytes that follow it.
pub proof fn lemma_show_frames_bound(data: Seq<u8>, p: int)
    requires
        0 <= p <= data.len(),
    ensures
        2 * show_frames_from(data, p) <= data.len() - p,
    decreases data.len() - p,
{
    if tag_readable(data, p) && !tag_is_short_block(data, p) {
        lemma_show_frames_bound(data, tag_end(data, p));
    }
}

/// Parses the tag record at offset `p`.  Returns the tag's code, the
/// offset of its first body byte and the offset just past it, or `None`
/// when no whole record can be read there.
fn read_tag_header(data: &Vec<u8>, p: usize) -> (r: Option<(u16, usize, usize)>)
    requires
        p <= data@.len(),
    ensures
        r is Some <==> tag_readable(data@, p as int),
        r matches Some((code, body, end)) ==> {
            &&& code as int == tag_code(data@, p as int)
            &&& body as int == tag_body(data@, p as int)
            &&& end as int == tag_end(data@, p as int)
        },
{
    if data.len() - p < 2 {
        return None;
    }
    let word: u16 = data[p] as u16 + 256 * (data[p + 1] as u16);
    let code: u16 = word / 64;
    let short_len: u16 = word % 64;
    if short_len == 63 {
        if data.len() - p < 6 {
            return None;
        }
        let len: u32 = data[p + 2] as u32 + 256 * (data[p + 3] as u32) + 65536 * (data[p
            + 4] as u32) + 16777216 * (data[p + 5] as u32);
        let body = p + 6;
        if len as usize > data.len() - body {
            return None;
        }
        Some((code, body, body + len as usize))
    } else {
        let body = p + 2;
        if short_len as usize > data.len() - body {
            return None;
        }
        Some((code, body, body + short_len as usize))
    }
}

/// Demultiplexes a tag-structured container region into the lazy byte
/// sequence of its streaming audio payloads.
///
/// The state is a cursor into the most recently scanned block's payload
/// (`buffer`, replaced wholesale per block), the offset at which tag
/// scanning resumes, and a count of frame-advance tags passed so far.
/// `remaining()` models the bytes still to come: the unread tail of the
/// current payload followed by `demuxed_from` the resume offset.
pub struct StreamTagDemuxer {
    data: Vec<u8>,
    scan_pos: usize,
    buffer: Vec<u8>,
    cursor: usize,
    frames: usize,
}

impl StreamTagDemuxer {
    /// The container bytes this demuxer draws from; fixed at construction.
    pub closed spec fn container(&self) -> Seq<u8> {
        self.data@
    }

    /// The bytes still to be produced, in order.
    pub closed spec fn remaining(&self) -> Seq<u8> {
        self.buffer@.skip(self.cursor as int) + demuxed_from(self.data@, self.scan_pos as int)
    }

    /// How many frame-advance tags scanning has passed so far.  The count
    /// never decreases, and once the sequence is exhausted it equals the
    /// count over the whole container.
    pub closed spec fn frames_scanned(&self) -> nat {
        self.frames as nat
    }

    /// Internal consistency: the cursor stays within the payload buffer,
    /// the scan offset within the container, and the frame count accounts
    /// exactly for the frame-advance tags between the start of the
    /// container and the scan offset.
    pub closed spec fn wf(&self) -> bool {
        &&& self.cursor <= self.buffer@.len()
        &&& self.scan_pos <= self.data@.len()
        &&& 2 * self.frames <= self.scan_pos
        &&& self.frames + show_frames_from(self.data@, self.scan_pos as int)
            == show_frames_from(self.data@, 0)
    }

    /// Builds a demuxer over `data`, positioned to produce the container's
    /// whole demuxed byte sequence.
    pub fn new(data: Vec<u8>) -> (d: StreamTagDemuxer)
        ensures
            d.wf(),
            d.container() == data@,
            d.remaining() == demuxed_from(data@, 0),
            d.frames_scanned() == 0,
    {
        let d = StreamTagDemuxer { data, scan_pos: 0, buffer: Vec::new(), cursor: 0, frames: 0 };
        proof {
            assert(d.remaining() =~= demuxed_from(d.data@, 0));
        }
        d
    }

    /// Reports how many frame-advance tags scanning has passed so far.
    pub fn frame_count(&self) -> (n: usize)
        ensures
            n == self.frames_scanned(),
    {
        self.frames
    }

    /// Scans tags from the resume offset until a streaming-sound block is
    /// stored as the new payload buffer (`true`) or scanning stops for
    /// good at the end of the data or a malformed record (`false`).
    /// Frame-advance tags passed on the way are counted; any other tag is
    /// skipped.  The modelled byte sequence is unchanged either way.
    #[verifier::loop_isolation(false)]
    fn refill(&mut self) -> (found: bool)
        requires
            old(self).wf(),
            old(self).cursor >= old(self).buffer@.len(),
        ensures
            final(self).wf(),
            final(self).container() == old(self).container(),
            final(self).remaining() == old(self).remaining(),
            final(self).frames_scanned() >= old(self).frames_scanned(),
            found ==> final(self).cursor == 0 && final(self).scan_pos > old(self).scan_pos,
            !found ==> {
                &&& final(self).remaining().len() == 0
                &&& show_frames_from(final(self).container(), final(self).scan_pos as int) == 0
            },
    {
        proof {
            assert(old(self).remaining() =~= demuxed_from(
                old(self).data@,
                old(self).scan_pos as int,
            ));
        }
        self.buffer = Vec::new();
        self.cursor = 0;
        loop
            invariant
                self.wf(),
                self.buffer@.len() == 0,
                self.cursor == 0,
                self.data@ == old(self).data@,
                self.scan_pos <= self.data@.len(),
                self.scan_pos >= old(self).scan_pos,
                self.frames >= old(self).frames,
                demuxed_from(self.data@, self.scan_pos as int) == demuxed_from(
                    old(self).data@,
                    old(self).scan_pos as int,
                ),
            decreases self.data@.len() - self.scan_pos,
        {
            match read_tag_header(&self.data, self.scan_pos) {
                None => {
                    proof {
                        assert(self.remaining() =~= old(self).remaining());
                    }
                    return false;
                }
                Some((code, body, end)) => {
                    if code == SOUND_STREAM_BLOCK_CODE {
                        if end - body < BLOCK_HEADER_LEN {
                            proof {
                                assert(self.remaining() =~= old(self).remaining());
                            }
                            return false;
                        }
                        self.buffer = copy_range(&self.data, body + BLOCK_HEADER_LEN, end);
                        self.scan_pos = end;
                        proof {
                            assert(self.remaining() =~= old(self).remaining());
                        }
                        return true;
                    } else {
                        if code == SHOW_FRAME_CODE {
                            proof {
                                assert(show_frames_from(self.data@, self.scan_pos as int)
                                    == show_frames_from(self.data@, end as int) + 1);
                            }
                            self.frames = self.frames + 1;
                        }
                        self.scan_pos = end;
                    }
                }
            }
        }
    }
}

impl ByteSource for StreamTagDemuxer {
    open spec fn wf(&self) -> bool {
        StreamTagDemuxer::wf(self)
    }

    open spec fn remaining(&self) -> Seq<u8> {
        StreamTagDemuxer::remaining(self)
    }

    /// Produces the next demuxed byte.  When the current payload is spent
    /// this scans forward, within the same pull, past frame-advance tags,
    /// other tags and empty blocks alike, until a payload byte is found or
    /// the container is exhausted; exhaustion, a truncated record and a
    /// malformed block all surface as `None`, never as an error.
    #[verifier::loop_isolation(false)]
    fn next_byte(&mut self) -> (r: Option<u8>)
        ensures
            final(self).container() == old(self).container(),
            final(self).frames_scanned() >= old(self).frames_scanned(),
            r is None ==> final(self).frames_scanned() == show_frames_from(
                old(self).container(),
                0,
            ),
    {
        loop
            invariant
                StreamTagDemuxer::wf(self),
                self.data@ == old(self).data@,
                StreamTagDemuxer::remaining(self) == StreamTagDemuxer::remaining(old(self)),
                self.frames >= old(self).frames,
            decreases self.data@.len() - self.scan_pos,
        {
            if self.cursor < self.buffer.len() {
                let b = self.buffer[self.cursor];
                self.cursor = self.cursor + 1;
                proof {
                    assert(StreamTagDemuxer::remaining(self) =~= StreamTagDemuxer::remaining(
                        old(self),
                    ).skip(1));
                }
                return Some(b);
            }
            let found = self.refill();
            if !found {
                return None;
            }
        }
    }
}

/// Builds the reader over the demuxed audio-payload byte sequence of the
/// given container region: the surface a byte-oriented codec decoder is
/// constructed from.
pub fn stream_tag_reader(swf_data: Vec<u8>) -> (r: IterRead<StreamTagDemuxer>)
    ensures
        r.wf(),
        r.remaining() == demuxed_from(swf_data@, 0),
        r.0.frames_scanned() == 0,
{
    IterRead(StreamTagDemuxer::new(swf_data))
}

/// Copies `data[from..to]` into a fresh vector.
fn copy_range(data: &Vec<u8>, from: usize, to: usize) -> (r: Vec<u8>)
    requires
        from <= to <= data@.len(),
    ensures
        r@ == data@.subrange(from as int, to as int),
{
    let mut out: Vec<u8> = Vec::new();
    let mut i: usize = from;
    while i < to
        invariant
            from <= i <= to <= data@.len(),
            out@ == data@.subrange(from as int, i as int),
        decreases to - i,
    {
        out.push(data[i]);
        proof {
            assert(out@ =~= data@.subrange(from as int, i + 1));
        }
        i = i + 1;
    }
    out
}

} // verus!
