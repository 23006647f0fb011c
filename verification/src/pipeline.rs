//! Composition of the two sensor paths: run the frame synchronizer over
//! newly arrived UART bytes and validate every completed frame, and turn a
//! finished temperature transaction into the reading handed to the uploader.

use vstd::prelude::*;

use crate::framer::ByteStreamFramer;
use crate::framer::frames_from;
use crate::framer::partial_after;
use crate::temperature::TempOutcome;
use crate::temperature::raw_to_sixteenths;
use crate::temperature::sixteenths_of;
use crate::validator::FrameError;
use crate::validator::validate;
use crate::validator::validate_spec;

verus! {

/// Why a temperature cycle produced no reading.
#[derive(Clone, Copy, Debug, PartialEq, Eq, Structural)]
pub enum TempError {
    /// The first reset of the transaction saw no presence pulse.
    SensorAbsent,
}

/// Feed newly arrived bytes to the framer and validate every frame completed
/// along the way, in arrival order: one verdict per completed frame, each
/// either a concentration in ppm or the reason the frame was rejected.
pub fn process_stream(framer: &mut ByteStreamFramer, bytes: &Vec<u8>) -> (results: Vec<
    Result<u16, FrameError>,
>)
    requires
        old(framer).wf(),
    ensures
        final(framer).wf(),
        final(framer).partial() == partial_after(old(framer).partial(), bytes@),
        results@ == frames_from(old(framer).partial(), bytes@).map_values(
            |f: Seq<u8>| validate_spec(f),
        ),
{
    let frames = framer.push_bytes(bytes);
    let ghost emitted = frames_from(old(framer).partial(), bytes@);
    let mut results: Vec<Result<u16, FrameError>> = Vec::new();
    let mut i: usize = 0;
    while i < frames.len()
        invariant
            i <= frames.len(),
            frames@.map_values(|f: crate::validator::CandidateFrame| f@) == emitted,
            results@.len() == i as int,
            forall|k: int| 0 <= k < i as int ==> results@[k] == validate_spec(emitted[k]),
        decreases frames.len() - i,
    {
        proof {
            assert(frames@.map_values(|f: crate::validator::CandidateFrame| f@)[i as int]
                == frames@[i as int]@);
        }
        let verdict = validate(&frames[i]);
        results.push(verdict);
        i = i + 1;
    }
    proof {
        assert(results@ =~= emitted.map_values(|f: Seq<u8>| validate_spec(f)));
    }
    results
}

/// The reading a temperature cycle hands the uploader: `None` while the
/// transaction is still in progress, the absence signal if the sensor never
/// answered, and otherwise the temperature in sixteenths of a degree
/// Celsius.
pub fn temp_reading(outcome: TempOutcome) -> (r: Option<Result<i32, TempError>>)
    ensures
        match outcome {
            TempOutcome::Pending => r is None,
            TempOutcome::SensorAbsent => r == Some(Err::<i32, TempError>(TempError::SensorAbsent)),
            TempOutcome::Reading(raw) => {
                &&& r matches Some(v)
                &&& v matches Ok(s)
                &&& s == sixteenths_of(raw)
            },
        },
{
    match outcome {
        TempOutcome::Pending => None,
        TempOutcome::SensorAbsent => Some(Err(TempError::SensorAbsent)),
        TempOutcome::Reading(raw) => Some(Ok(raw_to_sixteenths(raw))),
    }
}

} // verus!
