use sensor_core::framer::ByteStreamFramer;
use sensor_core::pipeline::process_stream;
use sensor_core::validator::FrameError;
use sensor_core::validator::validate;

#[test]
fn one_frame_emitted_byte_by_byte() {
    let mut framer = ByteStreamFramer::new();
    let bytes = [0x2C, 0x02, 0x80, 0x03, 0xFF, 0xB0];
    for (i, b) in bytes.iter().enumerate() {
        let emitted = framer.push_byte(*b);
        if i < 5 {
            assert!(emitted.is_none());
        } else {
            let frame = emitted.expect("sixth byte completes the frame");
            assert_eq!(
                (frame.b1, frame.b2, frame.b3, frame.b4, frame.b5, frame.b6),
                (0x2C, 0x02, 0x80, 0x03, 0xFF, 0xB0)
            );
            assert_eq!(validate(&frame), Ok(640));
        }
    }
}

#[test]
fn noise_before_header_is_discarded() {
    let mut framer = ByteStreamFramer::new();
    let bytes = vec![0x00, 0xFF, 0x13, 0x2C, 0x02, 0x80, 0x03, 0xFF, 0xB0];
    let frames = framer.push_bytes(&bytes);
    assert_eq!(frames.len(), 1);
    assert_eq!(frames[0].b1, 0x2C);
    assert_eq!(validate(&frames[0]), Ok(640));
}

#[test]
fn stream_without_header_yields_nothing() {
    let mut framer = ByteStreamFramer::new();
    let bytes = vec![0x00, 0x01, 0xFE, 0xFF, 0x42, 0x99, 0x03];
    let frames = framer.push_bytes(&bytes);
    assert!(frames.is_empty());
}

#[test]
fn progress_kept_while_bytes_are_awaited() {
    // The stream pauses mid-frame; collection resumes without losing the
    // prefix.
    let mut framer = ByteStreamFramer::new();
    let first = vec![0x2C, 0x02, 0x80];
    let frames = framer.push_bytes(&first);
    assert!(frames.is_empty());
    let second = vec![0x03, 0xFF, 0xB0];
    let frames = framer.push_bytes(&second);
    assert_eq!(frames.len(), 1);
    assert_eq!(validate(&frames[0]), Ok(640));
}

#[test]
fn header_value_inside_payload_is_kept() {
    // 0x2C in the concentration bytes is not treated as a new header.
    let mut framer = ByteStreamFramer::new();
    let bytes = vec![0x2C, 0x2C, 0x2C, 0x03, 0xFF, 0x5A];
    let frames = framer.push_bytes(&bytes);
    assert_eq!(frames.len(), 1);
    assert_eq!(
        (frames[0].b1, frames[0].b2, frames[0].b3),
        (0x2C, 0x2C, 0x2C)
    );
}

#[test]
fn scanning_resumes_after_rejected_frame() {
    // A structurally bad frame is discarded and the very next bytes are
    // scanned for the following frame.
    let mut framer = ByteStreamFramer::new();
    let bytes = vec![
        0x2C, 0x02, 0x80, 0x02, 0xFF, 0xB0, // full-scale field wrong
        0x2C, 0x02, 0x80, 0x03, 0xFF, 0xB0, // valid
    ];
    let results = process_stream(&mut framer, &bytes);
    assert_eq!(
        results,
        vec![Err(FrameError::StructuralMismatch), Ok(640)]
    );
}

#[test]
fn mixed_stream_verdicts_in_arrival_order() {
    let mut framer = ByteStreamFramer::new();
    let bytes = vec![
        0x11, 0x22, // noise
        0x2C, 0x02, 0x80, 0x03, 0xFF, 0x00, // checksum wrong
        0x2C, 0x01, 0x90, 0x03, 0xFF, 0xBF, // valid, 400 ppm
    ];
    let results = process_stream(&mut framer, &bytes);
    assert_eq!(
        results,
        vec![Err(FrameError::ChecksumMismatch), Ok(400)]
    );
}

#[test]
fn empty_input_yields_nothing() {
    let mut framer = ByteStreamFramer::new();
    let results = process_stream(&mut framer, &vec![]);
    assert!(results.is_empty());
}
