use vstd::prelude::*;
use crate::frame::AudioFrame;

verus! {

/// Position reached after one pull on a stream of length `len` from
/// position `pos`: a pull before the end advances by one frame, a pull at
/// or past the end leaves the position where it was.
pub open spec fn next_position(len: int, pos: int) -> int {
    if pos < len {
        pos + 1
    } else {
        pos
    }
}

/// Position reached after `n` pulls on a stream of length `len` from
/// position `pos`: the position after resetting and manually discarding
/// `n` frames starts this recursion at `pos == 0`.
pub open spec fn position_after_discards(len: int, pos: int, n: nat) -> int
    decreases n,
{
    if n == 0 {
        pos
    } else {
        position_after_discards(len, next_position(len, pos), (n - 1) as nat)
    }
}

/// The frames a decoder has yet to produce, in order: everything observable
/// about its future output.  Two decoders with equal futures (and equal
/// channel count and rate) behave identically from here on.
pub open spec fn frames_to_come<D: Decoder>(d: &D) -> Seq<AudioFrame> {
    d.stream().skip(d.position())
}

/// The capability every codec backend offers the playback engine: a lazy,
/// finite sequence of sample frames, pulled one at a time, with a constant
/// channel count and sample rate.
///
/// The model is a full frame stream plus a position within it; a pull hands
/// out the frame at the position and advances it.  End-of-stream is
/// terminal: at or past the end the position no longer moves, so every
/// later pull signals exhaustion as well.
pub trait Decoder: Sized {
    /// Internal consistency of the decoder's state.
    spec fn wf(&self) -> bool;

    /// The full stream of frames this decoder produces over its lifetime.
    spec fn stream(&self) -> Seq<AudioFrame>;

    /// How many frames have been pulled so far.
    spec fn position(&self) -> int;

    /// The constant channel count, 1 (mono) or 2 (stereo).
    spec fn channel_count(&self) -> u8;

    /// The constant sample rate in Hz.
    spec fn rate(&self) -> u16;

    /// Reports the channel count; constant over the decoder's lifetime.
    fn num_channels(&self) -> (r: u8)
        requires
            self.wf(),
        ensures
            r == self.channel_count(),
            r == 1 || r == 2,
    ;

    /// Reports the sample rate in Hz; constant over the decoder's lifetime.
    fn sample_rate(&self) -> (r: u16)
        requires
            self.wf(),
        ensures
            r == self.rate(),
    ;

    /// Pulls the next frame, or `None` exactly when the stream is
    /// exhausted.  Exhaustion is terminal: it leaves the position in place,
    /// so all later pulls return `None` too.
    fn next_frame(&mut self) -> (r: Option<AudioFrame>)
        requires
            old(self).wf(),
        ensures
            final(self).wf(),
            final(self).stream() == old(self).stream(),
            final(self).channel_count() == old(self).channel_count(),
            final(self).rate() == old(self).rate(),
            final(self).position() == next_position(
                old(self).stream().len() as int,
                old(self).position(),
            ),
            r == (if old(self).position() < old(self).stream().len() as int
                && old(self).position() >= 0 {
                Some(old(self).stream()[old(self).position()])
            } else {
                None::<AudioFrame>
            }),
    ;
}

/// A decoder that can rewind to its first frame.  Rewinding reinitialises
/// all decode state, so the stream produced afterwards is the same full
/// stream from the top.
pub trait SeekableDecoder: Decoder {
    /// Rewinds to the start: the position returns to zero and the stream
    /// itself is unchanged, so a full iteration afterwards yields the whole
    /// stream again.
    fn reset(&mut self)
        requires
            old(self).wf(),
        ensures
            final(self).wf(),
            final(self).stream() == old(self).stream(),
            final(self).channel_count() == old(self).channel_count(),
            final(self).rate() == old(self).rate(),
            final(self).position() == 0,
    ;

    /// Seeks to sample frame `frame`, clamped to the end of the stream.
    ///
    /// The default algorithm resets and then pulls and discards exactly
    /// `frame` frames; the contract pins every implementation, overriding
    /// or not, to land where that rewind-and-discard walk lands
    /// (`lemma_seek_matches_reset_then_discard` equates the two).
    fn seek_to_sample_frame(&mut self, frame: u32)
        requires
            old(self).wf(),
        ensures
            final(self).wf(),
            final(self).stream() == old(self).stream(),
            final(self).channel_count() == old(self).channel_count(),
            final(self).rate() == old(self).rate(),
            final(self).position() == vstd::math::min(
                frame as int,
                old(self).stream().len() as int,
            ),
    {
        self.reset();
        let mut i: u32 = 0;
        while i < frame
            invariant
                i <= frame,
                self.wf(),
                self.stream() == old(self).stream(),
                self.channel_count() == old(self).channel_count(),
                self.rate() == old(self).rate(),
                self.position() == vstd::math::min(i as int, old(self).stream().len() as int),
            decreases frame - i,
        {
            let _ = self.next_frame();
            i = i + 1;
        }
    }
}

/// A decoder over frames already decoded and resident in memory: the
/// simplest backend the capability admits, and the reference point for its
/// laws.  The stream is the held frame list; pulling walks it in order.
pub struct MemoryDecoder {
    frames: Vec<AudioFrame>,
    pos: usize,
    channels: u8,
    hz: u16,
}

impl MemoryDecoder {
    /// Builds a decoder that will produce `frames` in order from the
    /// start, reporting the given channel count and sample rate.
    pub fn new(frames: Vec<AudioFrame>, channels: u8, hz: u16) -> (d: MemoryDecoder)
        requires
            channels == 1 || channels == 2,
        ensures
            d.wf(),
            d.stream() == frames@,
            d.position() == 0,
            d.channel_count() == channels,
            d.rate() == hz,
    {
        MemoryDecoder { frames, pos: 0, channels, hz }
    }
}

impl Decoder for MemoryDecoder {
    closed spec fn wf(&self) -> bool {
        &&& self.pos <= self.frames@.len()
        &&& (self.channels == 1 || self.channels == 2)
    }

    closed spec fn stream(&self) -> Seq<AudioFrame> {
        self.frames@
    }

    closed spec fn position(&self) -> int {
        self.pos as int
    }

    closed spec fn channel_count(&self) -> u8 {
        self.channels
    }

    closed spec fn rate(&self) -> u16 {
        self.hz
    }

    fn num_channels(&self) -> (r: u8) {
        self.channels
    }

    fn sample_rate(&self) -> (r: u16) {
        self.hz
    }

    fn next_frame(&mut self) -> (r: Option<AudioFrame>) {
        if self.pos < self.frames.len() {
            let f = self.frames[self.pos];
            self.pos = self.pos + 1;
            Some(f)
        } else {
            None
        }
    }
}

impl SeekableDecoder for MemoryDecoder {
    fn reset(&mut self) {
        self.pos = 0;
    }
}

/// Law: seeking is reset followed by discarding.  Pulling and discarding
/// `n` frames from the start of a stream of length `len` lands at `n`
/// clamped to `len` — exactly where `seek_to_sample_frame(n)` promises to
/// land — so post-seek iteration is observably identical to resetting,
/// discarding `n` frames and continuing, for any implementation.
pub proof fn lemma_seek_matches_reset_then_discard(len: int, n: nat)
    requires
        len >= 0,
    ensures
        position_after_discards(len, 0, n) == vstd::math::min(n as int, len),
{
    lemma_discards_from(len, 0, n);
}

/// Discarding `n` frames from position `pos` lands at `pos + n` clamped to
/// the stream's length.
proof fn lemma_discards_from(len: int, pos: int, n: nat)
    requires
        0 <= pos <= len,
    ensures
        position_after_discards(len, pos, n) == vstd::math::min(pos + n, len),
    decreases n,
{
    if n > 0 {
        lemma_discards_from(len, next_position(len, pos), (n - 1) as nat);
    }
}

/// Law: resetting is idempotent.  A reset pins the decoder's model to
/// position zero over an unchanged stream, so the states after one reset
/// and after two consecutive resets have equal futures: full iteration
/// from each yields the same frame sequence.
pub proof fn lemma_reset_idempotent<D: SeekableDecoder>(after_first: &D, after_second: &D)
    requires
        after_first.position() == 0,
        after_second.position() == 0,
        after_second.stream() == after_first.stream(),
    ensures
        frames_to_come(after_second) == frames_to_come(after_first),
{
}

/// Law: end-of-stream is stable.  At or past the end of the stream a pull
/// leaves the position unchanged, so once a decoder has signalled
/// exhaustion, every subsequent pull signals it again.
pub proof fn lemma_end_of_stream_stable(len: int, pos: int)
    requires
        pos >= len,
    ensures
        next_position(len, pos) == pos,
{
}

} // verus!
