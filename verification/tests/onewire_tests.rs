use sensor_core::onewire::BusTimings;
use sensor_core::onewire::LineAction;
use sensor_core::onewire::bit_from_sample;
use sensor_core::onewire::byte_bits;
use sensor_core::onewire::byte_from_bits;
use sensor_core::onewire::presence_from_sample;
use sensor_core::onewire::read_bit_schedule;
use sensor_core::onewire::read_byte_schedule;
use sensor_core::onewire::reset_schedule;
use sensor_core::onewire::write_bit_schedule;
use sensor_core::onewire::write_byte_schedule;

#[test]
fn standard_timings() {
    let t = BusTimings::standard();
    assert_eq!(
        (t.reset_low, t.reset_sample_wait, t.reset_tail),
        (480, 70, 410)
    );
    assert_eq!((t.write_one_low, t.write_one_tail), (6, 64));
    assert_eq!((t.write_zero_low, t.write_zero_tail), (60, 10));
    assert_eq!((t.read_low, t.read_sample_wait, t.read_tail), (6, 9, 55));
}

#[test]
fn reset_schedule_shape() {
    let t = BusTimings::standard();
    assert_eq!(
        reset_schedule(&t),
        vec![
            LineAction::DriveLow,
            LineAction::DelayMicros(480),
            LineAction::ReleaseHigh,
            LineAction::DelayMicros(70),
            LineAction::SampleLine,
            LineAction::DelayMicros(410),
        ]
    );
}

#[test]
fn write_bit_schedules_encode_in_pulse_width() {
    let t = BusTimings::standard();
    assert_eq!(
        write_bit_schedule(&t, true),
        vec![
            LineAction::DriveLow,
            LineAction::DelayMicros(6),
            LineAction::ReleaseHigh,
            LineAction::DelayMicros(64),
        ]
    );
    assert_eq!(
        write_bit_schedule(&t, false),
        vec![
            LineAction::DriveLow,
            LineAction::DelayMicros(60),
            LineAction::ReleaseHigh,
            LineAction::DelayMicros(10),
        ]
    );
}

#[test]
fn read_bit_schedule_shape() {
    let t = BusTimings::standard();
    assert_eq!(
        read_bit_schedule(&t),
        vec![
            LineAction::DriveLow,
            LineAction::DelayMicros(6),
            LineAction::ReleaseHigh,
            LineAction::DelayMicros(9),
            LineAction::SampleLine,
            LineAction::DelayMicros(55),
        ]
    );
}

#[test]
fn presence_means_line_held_low() {
    assert!(presence_from_sample(false));
    assert!(!presence_from_sample(true));
}

#[test]
fn read_sample_high_is_one() {
    assert!(bit_from_sample(true));
    assert!(!bit_from_sample(false));
}

#[test]
fn bits_go_out_least_significant_first() {
    let bits = byte_bits(0xCC); // 1100_1100
    assert_eq!(
        bits,
        vec![false, false, true, true, false, false, true, true]
    );
    assert_eq!(
        byte_bits(0x01),
        vec![true, false, false, false, false, false, false, false]
    );
    assert_eq!(
        byte_bits(0x80),
        vec![false, false, false, false, false, false, false, true]
    );
}

#[test]
fn byte_assembly_round_trips() {
    for byte in [0x00u8, 0x01, 0x44, 0xBE, 0xCC, 0x7F, 0x80, 0xFF] {
        let bits = byte_bits(byte);
        assert_eq!(byte_from_bits(&bits), byte);
    }
}

#[test]
fn write_byte_schedule_is_eight_slots() {
    let t = BusTimings::standard();
    let acts = write_byte_schedule(&t, 0xCC); // 1100_1100: bit 0 is a zero
    assert_eq!(acts.len(), 32);
    assert_eq!(&acts[0..4], &write_bit_schedule(&t, false)[..]);
    assert_eq!(&acts[8..12], &write_bit_schedule(&t, true)[..]);
    let delay_sum: u64 = acts
        .iter()
        .map(|a| match a {
            LineAction::DelayMicros(us) => *us,
            _ => 0,
        })
        .sum();
    assert_eq!(delay_sum, 560);
}

#[test]
fn read_byte_schedule_samples_eight_times() {
    let t = BusTimings::standard();
    let acts = read_byte_schedule(&t);
    assert_eq!(acts.len(), 48);
    let samples = acts
        .iter()
        .filter(|a| matches!(a, LineAction::SampleLine))
        .count();
    assert_eq!(samples, 8);
    assert_eq!(&acts[0..6], &read_bit_schedule(&t)[..]);
}

#[test]
fn byte_from_known_bits() {
    let bits = vec![false, true, false, false, false, true, false, false];
    assert_eq!(byte_from_bits(&bits), 0x22);
}
