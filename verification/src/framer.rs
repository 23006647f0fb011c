//! Frame synchronization over the CO2 module's byte stream: scan for the
//! header byte, collect the five bytes that follow it, emit the 6-byte
//! candidate frame, and start scanning again.

use vstd::prelude::*;

use crate::validator::CandidateFrame;
use crate::validator::FRAME_HEADER;

verus! {

/// Number of bytes in one complete frame.
pub const FRAME_LEN: usize = 6;

/// The bytes collected so far after one byte `b` arrives: an empty window
/// opens only on the header byte; a partial window grows; a window of five
/// is completed by `b` and the next window starts empty.
pub open spec fn advance_spec(partial: Seq<u8>, b: u8) -> Seq<u8> {
    if partial.len() == 0 {
        if b == FRAME_HEADER {
            seq![b]
        } else {
            seq![]
        }
    } else if partial.len() < FRAME_LEN - 1 {
        partial.push(b)
    } else {
        seq![]
    }
}

/// The frame emitted, if any, when byte `b` arrives with `partial` already
/// collected: only the sixth byte of a window completes a frame.
pub open spec fn emit_spec(partial: Seq<u8>, b: u8) -> Option<Seq<u8>> {
    if partial.len() == FRAME_LEN - 1 {
        Some(partial.push(b))
    } else {
        None
    }
}

/// A well-formed partial window: strictly shorter than a frame and, once
/// non-empty, anchored on the header byte.
pub open spec fn partial_ok(partial: Seq<u8>) -> bool {
    &&& partial.len() < FRAME_LEN
    &&& partial.len() > 0 ==> partial[0] == FRAME_HEADER
}

/// All frames emitted while consuming `stream` starting from `partial`.
pub open spec fn frames_from(partial: Seq<u8>, stream: Seq<u8>) -> Seq<Seq<u8>>
    decreases stream.len(),
{
    if stream.len() == 0 {
        seq![]
    } else {
        let b = stream[0];
        let rest = frames_from(advance_spec(partial, b), stream.skip(1));
        match emit_spec(partial, b) {
            Some(f) => seq![f] + rest,
            None => rest,
        }
    }
}

/// The partial window left after consuming `stream` starting from `partial`.
pub open spec fn partial_after(partial: Seq<u8>, stream: Seq<u8>) -> Seq<u8>
    decreases stream.len(),
{
    if stream.len() == 0 {
        partial
    } else {
        partial_after(advance_spec(partial, stream[0]), stream.skip(1))
    }
}

/// Consumes a byte stream one byte at a time and assembles fixed-length
/// candidate frames anchored on the header byte. Progress inside a window is
/// kept while the caller waits for more bytes; a failed header search keeps
/// nothing.
pub struct ByteStreamFramer {
    buf: Vec<u8>,
}

impl ByteStreamFramer {
    /// The bytes of the window being assembled, header first.
    pub closed spec fn partial(&self) -> Seq<u8> {
        self.buf@
    }

    /// The window is always shorter than a frame and anchored on the header.
    pub closed spec fn wf(&self) -> bool {
        partial_ok(self.buf@)
    }

    /// A fresh framer, scanning for a header with nothing collected.
    pub fn new() -> (framer: Self)
        ensures
            framer.wf(),
            framer.partial() == Seq::<u8>::empty(),
    {
        ByteStreamFramer { buf: Vec::new() }
    }

    /// Consume one byte from the stream; return the completed frame when this
    /// byte is the sixth of a window.
    pub fn push_byte(&mut self, b: u8) -> (emitted: Option<CandidateFrame>)
        requires
            old(self).wf(),
        ensures
            final(self).wf(),
            final(self).partial() == advance_spec(old(self).partial(), b),
            match emitted {
                Some(frame) => emit_spec(old(self).partial(), b) == Some(frame@),
                None => emit_spec(old(self).partial(), b) is None,
            },
    {
        if self.buf.len() == 0 {
            if b == FRAME_HEADER {
                self.buf.push(b);
            }
            None
        } else if self.buf.len() < FRAME_LEN - 1 {
            self.buf.push(b);
            None
        } else {
            let frame = CandidateFrame {
                b1: self.buf[0],
                b2: self.buf[1],
                b3: self.buf[2],
                b4: self.buf[3],
                b5: self.buf[4],
                b6: b,
            };
            self.buf.clear();
            proof {
                assert(frame@ =~= old(self).partial().push(b));
            }
            Some(frame)
        }
    }

    /// Consume a run of bytes in arrival order, collecting every frame
    /// completed along the way.
    pub fn push_bytes(&mut self, bytes: &Vec<u8>) -> (frames: Vec<CandidateFrame>)
        requires
            old(self).wf(),
        ensures
            final(self).wf(),
            final(self).partial() == partial_after(old(self).partial(), bytes@),
            frames@.map_values(|f: CandidateFrame| f@) == frames_from(old(self).partial(), bytes@),
    {
        let mut frames: Vec<CandidateFrame> = Vec::new();
        let ghost all = frames_from(old(self).partial(), bytes@);
        let ghost tail_partial = partial_after(old(self).partial(), bytes@);
        let mut i: usize = 0;
        proof {
            assert(bytes@.skip(0) =~= bytes@);
            assert(frames@.map_values(|f: CandidateFrame| f@)
                + frames_from(self.partial(), bytes@) =~= all);
        }
        while i < bytes.len()
            invariant
                self.wf(),
                i <= bytes.len(),
                all == frames@.map_values(|f: CandidateFrame| f@)
                    + frames_from(self.partial(), bytes@.skip(i as int)),
                tail_partial == partial_after(self.partial(), bytes@.skip(i as int)),
            decreases bytes.len() - i,
        {
            let ghost pre = self.partial();
            let ghost rest = bytes@.skip(i as int);
            proof {
                assert(rest[0] == bytes@[i as int]);
                assert(rest.skip(1) =~= bytes@.skip(i as int + 1));
            }
            let emitted = self.push_byte(bytes[i]);
            if let Some(frame) = emitted {
                frames.push(frame);
                proof {
                    assert(frames@.map_values(|f: CandidateFrame| f@)
                        =~= frames@.drop_last().map_values(|f: CandidateFrame| f@).push(frame@));
                    assert(seq![frame@] + frames_from(self.partial(), bytes@.skip(i as int + 1))
                        =~= frames_from(pre, rest));
                }
            }
            i = i + 1;
        }
        proof {
            assert(bytes@.skip(bytes@.len() as int) =~= Seq::<u8>::empty());
            assert(frames@.map_values(|f: CandidateFrame| f@) =~= all);
        }
        frames
    }
}

/// Header anchoring: every frame the framer emits is 6 bytes long and starts
/// with the header byte, whatever the stream holds.
pub proof fn lemma_frames_anchored(partial: Seq<u8>, stream: Seq<u8>)
    requires
        partial_ok(partial),
    ensures
        forall|k: int|
            0 <= k < frames_from(partial, stream).len() ==> {
                &&& (#[trigger] frames_from(partial, stream)[k]).len() == FRAME_LEN
                &&& frames_from(partial, stream)[k][0] == FRAME_HEADER
            },
    decreases stream.len(),
{
    if stream.len() > 0 {
        let b = stream[0];
        let adv = advance_spec(partial, b);
        let rest = frames_from(adv, stream.skip(1));
        lemma_frames_anchored(adv, stream.skip(1));
        assert forall|k: int| 0 <= k < frames_from(partial, stream).len() implies {
            &&& (#[trigger] frames_from(partial, stream)[k]).len() == FRAME_LEN
            &&& frames_from(partial, stream)[k][0] == FRAME_HEADER
        } by {
            match emit_spec(partial, b) {
                Some(f) => {
                    assert(frames_from(partial, stream) == seq![f] + rest);
                    if k == 0 {
                        assert(f == partial.push(b));
                        assert(f[0] == partial[0]);
                    } else {
                        assert(frames_from(partial, stream)[k] == rest[k - 1]);
                    }
                },
                None => {
                    assert(frames_from(partial, stream)[k] == rest[k]);
                },
            }
        }
    }
}

/// A stream without the header byte yields no frame and leaves an empty
/// window: bytes that precede the first header occurrence are discarded.
pub proof fn lemma_no_header_no_frame(stream: Seq<u8>)
    requires
        forall|i: int| 0 <= i < stream.len() ==> stream[i] != FRAME_HEADER,
    ensures
        frames_from(Seq::<u8>::empty(), stream) == Seq::<Seq<u8>>::empty(),
        partial_after(Seq::<u8>::empty(), stream) == Seq::<u8>::empty(),
    decreases stream.len(),
{
    if stream.len() > 0 {
        assert(forall|i: int| 0 <= i < stream.skip(1).len() ==> stream.skip(1)[i] != FRAME_HEADER);
        lemma_no_header_no_frame(stream.skip(1));
        assert(frames_from(Seq::<u8>::empty(), stream) =~= Seq::<Seq<u8>>::empty());
    }
}

/// Bytes before the first header occurrence never reach an emitted frame: a
/// fresh framer behaves on the whole stream exactly as on the suffix that
/// starts at the first header.
pub proof fn lemma_prefix_without_header_dropped(stream: Seq<u8>, j: int)
    requires
        0 <= j <= stream.len(),
        forall|i: int| 0 <= i < j ==> stream[i] != FRAME_HEADER,
    ensures
        frames_from(Seq::<u8>::empty(), stream) == frames_from(Seq::<u8>::empty(), stream.skip(j)),
        partial_after(Seq::<u8>::empty(), stream) == partial_after(
            Seq::<u8>::empty(),
            stream.skip(j),
        ),
    decreases j,
{
    if j > 0 {
        let b = stream[0];
        assert(advance_spec(Seq::<u8>::empty(), b) =~= Seq::<u8>::empty());
        lemma_prefix_without_header_dropped(stream.skip(1), j - 1);
        assert(stream.skip(1).skip(j - 1) =~= stream.skip(j));
    } else {
        assert(stream.skip(0) =~= stream);
    }
}

} // verus!
