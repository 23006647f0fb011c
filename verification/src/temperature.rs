//! The temperature transaction: a fixed command sequence over the single-wire
//! bus — reset and presence check, skip-addressing, start-conversion, a
//! suspendable conversion wait, re-select, read-scratchpad, and two byte
//! reads that form the raw temperature word.
//!
//! The transaction is a state machine: the embedding program asks for the
//! next bus action, performs it, and reports what it observed. Every decision
//! — which command byte goes next, when to give up, how the two bytes form a
//! reading — is made here.

use vstd::prelude::*;

verus! {

/// Command byte addressing every device on the bus at once.
pub const SKIP_ADDRESSING: u8 = 0xCC;

/// Command byte that begins a measurement.
pub const START_CONVERSION: u8 = 0x44;

/// Command byte that returns the last measurement.
pub const READ_SCRATCHPAD: u8 = 0xBE;

/// How long a conversion takes, in milliseconds. The wait must suspend, not
/// spin: it is the only non-atomic pause in the transaction.
pub const CONVERSION_WAIT_MILLIS: u64 = 800;

/// What the transaction asks the embedding program to do next.
#[derive(Clone, Copy, Debug, PartialEq, Eq, Structural)]
pub enum TempAction {
    /// Run the reset schedule and report whether a presence pulse was seen.
    BusReset,
    /// Write this byte on the bus, least-significant bit first.
    BusWrite(u8),
    /// Yield to the scheduler for this many milliseconds.
    SuspendMillis(u64),
    /// Read one byte from the bus and report it.
    BusRead,
    /// The transaction is over; no further bus activity is wanted.
    Finish,
}

/// What the embedding program observed while performing an action.
#[derive(Clone, Copy, Debug, PartialEq, Eq, Structural)]
pub enum TempEvent {
    /// A reset completed; the payload says whether a device answered.
    Presence(bool),
    /// A byte write completed.
    WriteDone,
    /// The suspension elapsed.
    WaitDone,
    /// A byte read completed with this value.
    ByteRead(u8),
}

/// Where the transaction stands. The states follow the command sequence in
/// order; `Absent` and `Done` are terminal.
#[derive(Clone, Copy, Debug, PartialEq, Eq, Structural)]
pub enum TempState {
    /// Nothing has happened; the first reset is owed.
    Start,
    /// The first reset saw no presence pulse: the sensor is absent and no
    /// byte will be written.
    Absent,
    /// Presence seen; the first skip-addressing byte is owed.
    SendSkipFirst,
    /// The start-conversion byte is owed.
    SendConvert,
    /// The conversion wait is owed.
    Converting,
    /// The second reset is owed; its presence pulse is not re-checked.
    Reselect,
    /// The second skip-addressing byte is owed.
    SendSkipSecond,
    /// The read-scratchpad byte is owed.
    SendReadCommand,
    /// The low byte of the raw word is owed.
    ReadLow,
    /// The high byte of the raw word is owed.
    ReadHigh { low: u8 },
    /// Both bytes arrived; the raw word is assembled.
    Done { raw: u16 },
}

/// The raw temperature word formed from its two wire bytes: the low byte
/// arrives first.
pub open spec fn raw_word(msb: u8, lsb: u8) -> u16 {
    (msb * 256 + lsb) as u16
}

/// The action owed in each state.
pub open spec fn action_of(s: TempState) -> TempAction {
    match s {
        TempState::Start => TempAction::BusReset,
        TempState::Absent => TempAction::Finish,
        TempState::SendSkipFirst => TempAction::BusWrite(SKIP_ADDRESSING),
        TempState::SendConvert => TempAction::BusWrite(START_CONVERSION),
        TempState::Converting => TempAction::SuspendMillis(CONVERSION_WAIT_MILLIS),
        TempState::Reselect => TempAction::BusReset,
        TempState::SendSkipSecond => TempAction::BusWrite(SKIP_ADDRESSING),
        TempState::SendReadCommand => TempAction::BusWrite(READ_SCRATCHPAD),
        TempState::ReadLow => TempAction::BusRead,
        TempState::ReadHigh { .. } => TempAction::BusRead,
        TempState::Done { .. } => TempAction::Finish,
    }
}

/// One transition: the event that answers the owed action advances the
/// sequence; any other event leaves the state unchanged. Only the first
/// presence check can abort; the second reset's answer is accepted either
/// way, as the protocol has no device-side acknowledgment there.
pub open spec fn step_spec(s: TempState, e: TempEvent) -> TempState {
    match (s, e) {
        (TempState::Start, TempEvent::Presence(p)) => if p {
            TempState::SendSkipFirst
        } else {
            TempState::Absent
        },
        (TempState::SendSkipFirst, TempEvent::WriteDone) => TempState::SendConvert,
        (TempState::SendConvert, TempEvent::WriteDone) => TempState::Converting,
        (TempState::Converting, TempEvent::WaitDone) => TempState::Reselect,
        (TempState::Reselect, TempEvent::Presence(_)) => TempState::SendSkipSecond,
        (TempState::SendSkipSecond, TempEvent::WriteDone) => TempState::SendReadCommand,
        (TempState::SendReadCommand, TempEvent::WriteDone) => TempState::ReadLow,
        (TempState::ReadLow, TempEvent::ByteRead(b)) => TempState::ReadHigh { low: b },
        (TempState::ReadHigh { low }, TempEvent::ByteRead(b)) => TempState::Done {
            raw: raw_word(b, low),
        },
        (_, _) => s,
    }
}

/// What a state means to the caller: still in progress, aborted for want of
/// a sensor, or a raw reading.
#[derive(Clone, Copy, Debug, PartialEq, Eq, Structural)]
pub enum TempOutcome {
    /// The transaction has more actions to perform.
    Pending,
    /// The first reset saw no presence pulse.
    SensorAbsent,
    /// The transaction completed with this raw word.
    Reading(u16),
}

/// The outcome read off a state.
pub open spec fn outcome_of(s: TempState) -> TempOutcome {
    match s {
        TempState::Absent => TempOutcome::SensorAbsent,
        TempState::Done { raw } => TempOutcome::Reading(raw),
        _ => TempOutcome::Pending,
    }
}

/// One temperature transaction over an exclusively owned bus.
pub struct TempTransaction {
    /// Where the command sequence stands.
    pub state: TempState,
}

impl TempTransaction {
    /// A fresh transaction, about to issue its first reset.
    pub fn new() -> (t: Self)
        ensures
            t.state == TempState::Start,
    {
        TempTransaction { state: TempState::Start }
    }

    /// The bus action the embedding program should perform next.
    pub fn next_action(&self) -> (a: TempAction)
        ensures
            a == action_of(self.state),
    {
        match self.state {
            TempState::Start => TempAction::BusReset,
            TempState::Absent => TempAction::Finish,
            TempState::SendSkipFirst => TempAction::BusWrite(SKIP_ADDRESSING),
            TempState::SendConvert => TempAction::BusWrite(START_CONVERSION),
            TempState::Converting => TempAction::SuspendMillis(CONVERSION_WAIT_MILLIS),
            TempState::Reselect => TempAction::BusReset,
            TempState::SendSkipSecond => TempAction::BusWrite(SKIP_ADDRESSING),
            TempState::SendReadCommand => TempAction::BusWrite(READ_SCRATCHPAD),
            TempState::ReadLow => TempAction::BusRead,
            TempState::ReadHigh { .. } => TempAction::BusRead,
            TempState::Done { .. } => TempAction::Finish,
        }
    }

    /// Advance on an observed event.
    pub fn step(&mut self, e: TempEvent)
        ensures
            final(self).state == step_spec(old(self).state, e),
    {
        let next = match (self.state, e) {
            (TempState::Start, TempEvent::Presence(p)) => if p {
                TempState::SendSkipFirst
            } else {
                TempState::Absent
            },
            (TempState::SendSkipFirst, TempEvent::WriteDone) => TempState::SendConvert,
            (TempState::SendConvert, TempEvent::WriteDone) => TempState::Converting,
            (TempState::Converting, TempEvent::WaitDone) => TempState::Reselect,
            (TempState::Reselect, TempEvent::Presence(_)) => TempState::SendSkipSecond,
            (TempState::SendSkipSecond, TempEvent::WriteDone) => TempState::SendReadCommand,
            (TempState::SendReadCommand, TempEvent::WriteDone) => TempState::ReadLow,
            (TempState::ReadLow, TempEvent::ByteRead(b)) => TempState::ReadHigh { low: b },
            (TempState::ReadHigh { low }, TempEvent::ByteRead(b)) => TempState::Done {
                raw: word_from_bytes(b, low),
            },
            (s, _) => s,
        };
        self.state = next;
    }

    /// The transaction's outcome so far.
    pub fn outcome(&self) -> (o: TempOutcome)
        ensures
            o == outcome_of(self.state),
    {
        match self.state {
            TempState::Absent => TempOutcome::SensorAbsent,
            TempState::Done { raw } => TempOutcome::Reading(raw),
            _ => TempOutcome::Pending,
        }
    }
}

/// Assemble the raw word from its two wire bytes.
pub fn word_from_bytes(msb: u8, lsb: u8) -> (w: u16)
    ensures
        w == raw_word(msb, lsb),
{
    let w: u16 = ((msb as u16) << 8) | (lsb as u16);
    proof {
        assert(((msb as u16) << 8) | (lsb as u16) == msb * 256 + lsb) by (bit_vector);
    }
    w
}

/// The raw word read as a signed count of sixteenths of a degree Celsius:
/// the word is a 16-bit two's-complement value.
pub open spec fn sixteenths_of(raw: u16) -> int {
    if raw < 0x8000 {
        raw as int
    } else {
        raw - 0x10000
    }
}

/// Decode the raw word to sixteenths of a degree Celsius.
pub fn raw_to_sixteenths(raw: u16) -> (s: i32)
    ensures
        s == sixteenths_of(raw),
        -0x8000 <= s < 0x8000,
{
    if raw < 0x8000 {
        raw as i32
    } else {
        raw as i32 - 0x10000
    }
}

/// Decode sixteenths of a degree to hundredths of a degree, rounding toward
/// minus infinity: one sixteenth is 6.25 hundredths.
pub fn centi_from_sixteenths(s: i32) -> (c: i32)
    requires
        -0x8000 <= s < 0x8000,
    ensures
        c == (s * 25) / 4,
{
    let shifted: u32 = ((s + 0x8000) as u32) * 25;
    let q: u32 = shifted / 4;
    let c: i32 = (q as i32) - 204800;
    proof {
        vstd::arithmetic::div_mod::lemma_hoist_over_denominator(s * 25, 204800, 4);
    }
    c
}

/// A transaction whose first reset saw no presence pulse is over for good:
/// it asks for no bus action, answers every further event by staying put,
/// and reports the sensor absent.
pub proof fn lemma_absent_terminal(e: TempEvent)
    ensures
        action_of(TempState::Absent) == TempAction::Finish,
        step_spec(TempState::Absent, e) == TempState::Absent,
        outcome_of(TempState::Absent) == TempOutcome::SensorAbsent,
{
}

/// The state after answering each owed action in turn, from position `i` of
/// the event list on.
pub open spec fn run_events_from(s: TempState, events: Seq<TempEvent>, i: int) -> TempState
    decreases events.len() - i,
{
    if i < 0 || i >= events.len() {
        s
    } else {
        run_events_from(step_spec(s, events[i]), events, i + 1)
    }
}

/// The state after a whole event list.
pub open spec fn run_events(s: TempState, events: Seq<TempEvent>) -> TempState {
    run_events_from(s, events, 0)
}

/// The events of a transaction in which the sensor is present and the two
/// scratchpad bytes read back as `lsb` then `msb`.
pub open spec fn successful_events(presence2: bool, lsb: u8, msb: u8) -> Seq<TempEvent> {
    seq![
        TempEvent::Presence(true),
        TempEvent::WriteDone,
        TempEvent::WriteDone,
        TempEvent::WaitDone,
        TempEvent::Presence(presence2),
        TempEvent::WriteDone,
        TempEvent::WriteDone,
        TempEvent::ByteRead(lsb),
        TempEvent::ByteRead(msb),
    ]
}

/// The states in which the events from position `i` on are answered: one
/// state per event, starting with `s` itself.
pub open spec fn states_along_from(s: TempState, events: Seq<TempEvent>, i: int) -> Seq<TempState>
    decreases events.len() - i,
{
    if i < 0 || i >= events.len() {
        seq![]
    } else {
        seq![s] + states_along_from(step_spec(s, events[i]), events, i + 1)
    }
}

/// The states in which a whole event list is answered.
pub open spec fn states_along(s: TempState, events: Seq<TempEvent>) -> Seq<TempState> {
    states_along_from(s, events, 0)
}

/// A present sensor and two read bytes drive the transaction from start to
/// `Done`, and the actions answered along the way are exactly the fixed
/// command sequence: reset, skip-addressing, start-conversion, the
/// conversion wait, reset, skip-addressing, read-scratchpad, and two reads.
/// The raw word puts the second byte above the first.
pub proof fn lemma_successful_transaction(presence2: bool, lsb: u8, msb: u8)
    ensures
        run_events(TempState::Start, successful_events(presence2, lsb, msb)) == (TempState::Done {
            raw: raw_word(msb, lsb),
        }),
        ({
            let states = states_along(TempState::Start, successful_events(presence2, lsb, msb));
            states.map_values(|s: TempState| action_of(s)) == seq![
                TempAction::BusReset,
                TempAction::BusWrite(SKIP_ADDRESSING),
                TempAction::BusWrite(START_CONVERSION),
                TempAction::SuspendMillis(CONVERSION_WAIT_MILLIS),
                TempAction::BusReset,
                TempAction::BusWrite(SKIP_ADDRESSING),
                TempAction::BusWrite(READ_SCRATCHPAD),
                TempAction::BusRead,
                TempAction::BusRead,
            ]
        }),
{
    let events = successful_events(presence2, lsb, msb);
    reveal_with_fuel(run_events_from, 11);
    assert(run_events_from(TempState::Start, events, 0) == (TempState::Done {
        raw: raw_word(msb, lsb),
    }));
    let states = states_along(TempState::Start, events);
    reveal_with_fuel(states_along_from, 11);
    assert(states.map_values(|s: TempState| action_of(s)) =~= seq![
        TempAction::BusReset,
        TempAction::BusWrite(SKIP_ADDRESSING),
        TempAction::BusWrite(START_CONVERSION),
        TempAction::SuspendMillis(CONVERSION_WAIT_MILLIS),
        TempAction::BusReset,
        TempAction::BusWrite(SKIP_ADDRESSING),
        TempAction::BusWrite(READ_SCRATCHPAD),
        TempAction::BusRead,
        TempAction::BusRead,
    ]);
}

} // verus!
