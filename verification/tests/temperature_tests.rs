use sensor_core::pipeline::TempError;
use sensor_core::pipeline::temp_reading;
use sensor_core::temperature::CONVERSION_WAIT_MILLIS;
use sensor_core::temperature::READ_SCRATCHPAD;
use sensor_core::temperature::SKIP_ADDRESSING;
use sensor_core::temperature::START_CONVERSION;
use sensor_core::temperature::TempAction;
use sensor_core::temperature::TempEvent;
use sensor_core::temperature::TempOutcome;
use sensor_core::temperature::TempTransaction;
use sensor_core::temperature::centi_from_sixteenths;
use sensor_core::temperature::raw_to_sixteenths;
use sensor_core::temperature::word_from_bytes;

#[test]
fn sensor_absent_aborts_before_any_write() {
    let mut t = TempTransaction::new();
    assert_eq!(t.next_action(), TempAction::BusReset);
    t.step(TempEvent::Presence(false));
    assert_eq!(t.outcome(), TempOutcome::SensorAbsent);
    assert_eq!(t.next_action(), TempAction::Finish);
    // Whatever is reported afterwards, the transaction stays over.
    t.step(TempEvent::WriteDone);
    t.step(TempEvent::ByteRead(0x42));
    assert_eq!(t.outcome(), TempOutcome::SensorAbsent);
    assert_eq!(t.next_action(), TempAction::Finish);
    assert_eq!(
        temp_reading(t.outcome()),
        Some(Err(TempError::SensorAbsent))
    );
}

#[test]
fn full_transaction_issues_the_fixed_command_sequence() {
    let mut t = TempTransaction::new();
    let script = [
        (TempAction::BusReset, TempEvent::Presence(true)),
        (
            TempAction::BusWrite(SKIP_ADDRESSING),
            TempEvent::WriteDone,
        ),
        (
            TempAction::BusWrite(START_CONVERSION),
            TempEvent::WriteDone,
        ),
        (
            TempAction::SuspendMillis(CONVERSION_WAIT_MILLIS),
            TempEvent::WaitDone,
        ),
        (TempAction::BusReset, TempEvent::Presence(true)),
        (
            TempAction::BusWrite(SKIP_ADDRESSING),
            TempEvent::WriteDone,
        ),
        (
            TempAction::BusWrite(READ_SCRATCHPAD),
            TempEvent::WriteDone,
        ),
        (TempAction::BusRead, TempEvent::ByteRead(0x90)),
        (TempAction::BusRead, TempEvent::ByteRead(0x01)),
    ];
    for (expected_action, event) in script {
        assert_eq!(t.outcome(), TempOutcome::Pending);
        assert_eq!(t.next_action(), expected_action);
        t.step(event);
    }
    assert_eq!(t.next_action(), TempAction::Finish);
    assert_eq!(t.outcome(), TempOutcome::Reading(0x0190));
    assert_eq!(temp_reading(t.outcome()), Some(Ok(400)));
}

#[test]
fn second_presence_answer_is_not_rechecked() {
    let mut t = TempTransaction::new();
    t.step(TempEvent::Presence(true));
    t.step(TempEvent::WriteDone);
    t.step(TempEvent::WriteDone);
    t.step(TempEvent::WaitDone);
    // Even a missing presence pulse at the re-select reset does not abort.
    t.step(TempEvent::Presence(false));
    assert_eq!(t.next_action(), TempAction::BusWrite(SKIP_ADDRESSING));
    assert_eq!(t.outcome(), TempOutcome::Pending);
}

#[test]
fn mismatched_events_leave_the_state_alone() {
    let mut t = TempTransaction::new();
    t.step(TempEvent::WriteDone);
    t.step(TempEvent::ByteRead(7));
    t.step(TempEvent::WaitDone);
    assert_eq!(t.next_action(), TempAction::BusReset);
    assert_eq!(t.outcome(), TempOutcome::Pending);
}

#[test]
fn raw_word_puts_second_byte_on_top() {
    assert_eq!(word_from_bytes(0x01, 0x90), 0x0190);
    assert_eq!(word_from_bytes(0xFF, 0x38), 0xFF38);
    assert_eq!(word_from_bytes(0x00, 0x00), 0x0000);
}

#[test]
fn temperature_decode_positive() {
    // Raw word 0x0190 (400) is 25.00 degrees Celsius.
    let s = raw_to_sixteenths(0x0190);
    assert_eq!(s, 400);
    assert_eq!(centi_from_sixteenths(s), 2500);
    assert_eq!(s as f32 / 16.0, 25.00f32);
}

#[test]
fn temperature_decode_negative() {
    // Raw word 0xFF38 (two's-complement -200) is -12.50 degrees Celsius.
    let s = raw_to_sixteenths(0xFF38);
    assert_eq!(s, -200);
    assert_eq!(centi_from_sixteenths(s), -1250);
    assert_eq!(s as f32 / 16.0, -12.50f32);
}

#[test]
fn temperature_decode_extremes() {
    assert_eq!(raw_to_sixteenths(0x0000), 0);
    assert_eq!(centi_from_sixteenths(0), 0);
    assert_eq!(raw_to_sixteenths(0x7FFF), 32767);
    assert_eq!(raw_to_sixteenths(0x8000), -32768);
    assert_eq!(centi_from_sixteenths(-32768), -204800);
    // Hundredths round toward minus infinity.
    assert_eq!(centi_from_sixteenths(1), 6);
    assert_eq!(centi_from_sixteenths(-1), -7);
}

#[test]
fn pending_transaction_has_no_reading() {
    let t = TempTransaction::new();
    assert_eq!(temp_reading(t.outcome()), None);
}
