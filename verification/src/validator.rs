//! Validation of candidate frames from the CO2 module: a structural check on
//! the full-scale field, an 8-bit wraparound checksum, and the concentration
//! decode.

use vstd::prelude::*;

verus! {

/// Header byte that anchors every frame on the wire.
pub const FRAME_HEADER: u8 = 0x2C;

/// Fixed high byte of the full-scale field (`b4`).
pub const FULL_SCALE_HIGH: u8 = 0x03;

/// Fixed low byte of the full-scale field (`b5`).
pub const FULL_SCALE_LOW: u8 = 0xFF;

/// A complete 6-byte frame as assembled from the byte stream: header,
/// concentration high/low bytes, full-scale field, checksum.
#[derive(Clone, Copy, Debug, PartialEq, Eq, Structural)]
pub struct CandidateFrame {
    pub b1: u8,
    pub b2: u8,
    pub b3: u8,
    pub b4: u8,
    pub b5: u8,
    pub b6: u8,
}

impl View for CandidateFrame {
    type V = Seq<u8>;

    open spec fn view(&self) -> Seq<u8> {
        seq![self.b1, self.b2, self.b3, self.b4, self.b5, self.b6]
    }
}

/// Why a candidate frame was rejected.
#[derive(Clone, Copy, Debug, PartialEq, Eq, Structural)]
pub enum FrameError {
    /// The full-scale field does not hold its fixed value.
    StructuralMismatch,
    /// The checksum byte does not match the wraparound sum of the first five.
    ChecksumMismatch,
}

/// The 8-bit wraparound sum of the first five frame bytes.
pub open spec fn checksum_spec(b1: u8, b2: u8, b3: u8, b4: u8, b5: u8) -> u8 {
    ((b1 + b2 + b3 + b4 + b5) % 256) as u8
}

/// The full-scale field holds its fixed value.
pub open spec fn structural_ok(f: Seq<u8>) -> bool {
    f[3] == FULL_SCALE_HIGH && f[4] == FULL_SCALE_LOW
}

/// The checksum byte matches the first five bytes.
pub open spec fn checksum_ok(f: Seq<u8>) -> bool {
    f[5] == checksum_spec(f[0], f[1], f[2], f[3], f[4])
}

/// The concentration carried by a frame: high byte `b2`, low byte `b3`.
pub open spec fn ppm_spec(f: Seq<u8>) -> u16 {
    (f[1] * 256 + f[2]) as u16
}

/// What validation returns for a 6-byte frame: the structural check is
/// evaluated first, then the checksum, and only then is the concentration
/// decoded.
pub open spec fn validate_spec(f: Seq<u8>) -> Result<u16, FrameError> {
    if !structural_ok(f) {
        Err(FrameError::StructuralMismatch)
    } else if !checksum_ok(f) {
        Err(FrameError::ChecksumMismatch)
    } else {
        Ok(ppm_spec(f))
    }
}

/// Compute the 8-bit wraparound checksum over the first five frame bytes.
pub fn checksum(b1: u8, b2: u8, b3: u8, b4: u8, b5: u8) -> (r: u8)
    ensures
        r == checksum_spec(b1, b2, b3, b4, b5),
{
    let sum: u16 = b1 as u16 + b2 as u16 + b3 as u16 + b4 as u16 + b5 as u16;
    (sum % 256) as u8
}

/// Check a candidate frame and decode its concentration.
///
/// The frame is accepted exactly when its full-scale field holds the fixed
/// value and its checksum byte matches; the reading is then
/// `b2 * 256 + b3` ppm.
pub fn validate(frame: &CandidateFrame) -> (r: Result<u16, FrameError>)
    ensures
        r == validate_spec(frame@),
{
    if frame.b4 != FULL_SCALE_HIGH || frame.b5 != FULL_SCALE_LOW {
        return Err(FrameError::StructuralMismatch);
    }
    let sum = checksum(frame.b1, frame.b2, frame.b3, frame.b4, frame.b5);
    if sum != frame.b6 {
        return Err(FrameError::ChecksumMismatch);
    }
    let ppm: u16 = ((frame.b2 as u16) << 8) | (frame.b3 as u16);
    proof {
        let (hi, lo) = (frame.b2, frame.b3);
        assert(((hi as u16) << 8) | (lo as u16) == hi * 256 + lo) by (bit_vector);
    }
    Ok(ppm)
}

/// The well-formed frame that encodes a concentration: the header, the two
/// concentration bytes, the full-scale field, and the matching checksum.
pub open spec fn frame_for(ppm: u16) -> Seq<u8> {
    let hi = (ppm / 256) as u8;
    let lo = (ppm % 256) as u8;
    seq![
        FRAME_HEADER,
        hi,
        lo,
        FULL_SCALE_HIGH,
        FULL_SCALE_LOW,
        checksum_spec(FRAME_HEADER, hi, lo, FULL_SCALE_HIGH, FULL_SCALE_LOW),
    ]
}

/// Build the frame that carries a concentration.
pub fn build_frame(ppm: u16) -> (frame: CandidateFrame)
    ensures
        frame@ == frame_for(ppm),
{
    let hi = (ppm >> 8) as u8;
    let lo = (ppm & 0xFF) as u8;
    proof {
        assert((ppm >> 8) as u8 == ppm / 256 && (ppm & 0xFF) as u8 == ppm % 256) by (bit_vector);
    }
    let b6 = checksum(FRAME_HEADER, hi, lo, FULL_SCALE_HIGH, FULL_SCALE_LOW);
    let frame = CandidateFrame {
        b1: FRAME_HEADER,
        b2: hi,
        b3: lo,
        b4: FULL_SCALE_HIGH,
        b5: FULL_SCALE_LOW,
        b6,
    };
    proof {
        assert(frame@ =~= frame_for(ppm));
    }
    frame
}

/// Round trip: the frame built for a concentration is accepted, and decodes
/// to that same concentration.
pub proof fn lemma_round_trip(ppm: u16)
    ensures
        validate_spec(frame_for(ppm)) == Ok::<u16, FrameError>(ppm),
{
    let f = frame_for(ppm);
    vstd::arithmetic::div_mod::lemma_fundamental_div_mod(ppm as int, 256);
    assert(ppm_spec(f) == ppm);
}

/// A frame is accepted exactly when its full-scale field and checksum are
/// right; a bad full-scale field is reported as structural before the
/// checksum is even considered.
pub proof fn lemma_acceptance(f: Seq<u8>)
    requires
        f.len() == 6,
    ensures
        validate_spec(f) is Ok <==> (f[3] == FULL_SCALE_HIGH && f[4] == FULL_SCALE_LOW
            && f[5] == checksum_spec(f[0], f[1], f[2], f[3], f[4])),
        validate_spec(f) == Err::<u16, FrameError>(FrameError::StructuralMismatch)
            <==> !(f[3] == FULL_SCALE_HIGH && f[4] == FULL_SCALE_LOW),
        validate_spec(f) == Err::<u16, FrameError>(FrameError::ChecksumMismatch)
            <==> (f[3] == FULL_SCALE_HIGH && f[4] == FULL_SCALE_LOW
                && f[5] != checksum_spec(f[0], f[1], f[2], f[3], f[4])),
        validate_spec(f) is Ok ==> validate_spec(f) == Ok::<u16, FrameError>(ppm_spec(f)),
{
}

} // verus!
