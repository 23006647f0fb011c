//! Model of the software-timed single-wire bus master. The master only ever
//! drives the line low or releases it to the external pull-up; a bit value is
//! encoded in the duration of the low pulse inside a fixed-length time slot.
//!
//! Each operation is described as a schedule of line actions for the
//! embedding program to perform back to back inside one uninterruptible
//! scope, plus a pure decode of whatever level was sampled.

use vstd::prelude::*;

verus! {

/// One step of a bus operation, performed by the embedding program against
/// the physical pin.
#[derive(Clone, Copy, Debug, PartialEq, Eq, Structural)]
pub enum LineAction {
    /// Enable the open-drain output: the line goes low.
    DriveLow,
    /// Disable the output: the line floats and the pull-up takes it high.
    ReleaseHigh,
    /// Block for exactly this many microseconds.
    DelayMicros(u64),
    /// Read the line level once; the observed level feeds the decode.
    SampleLine,
}

/// The microseconds a single action takes: its delay, or none.
pub open spec fn action_delay(a: LineAction) -> int {
    match a {
        LineAction::DelayMicros(us) => us as int,
        _ => 0,
    }
}

/// The microseconds spent in a schedule from position `i` on.
pub open spec fn delay_from(s: Seq<LineAction>, i: int) -> int
    decreases s.len() - i,
{
    if i < 0 || i >= s.len() {
        0
    } else {
        action_delay(s[i]) + delay_from(s, i + 1)
    }
}

/// The microseconds spent in a schedule, summed over its delay actions.
pub open spec fn total_delay(s: Seq<LineAction>) -> int {
    delay_from(s, 0)
}

/// The timing budget of every bus operation, in microseconds. The fields are
/// public so a deployment can tune them to its device, within the slot
/// invariant below.
#[derive(Clone, Copy, Debug, PartialEq, Eq, Structural)]
pub struct BusTimings {
    /// Low pulse that starts a reset.
    pub reset_low: u64,
    /// Wait after release before sampling for the presence pulse.
    pub reset_sample_wait: u64,
    /// Idle time that completes the reset slot.
    pub reset_tail: u64,
    /// Short low pulse that writes a one.
    pub write_one_low: u64,
    /// Idle time that completes a one slot.
    pub write_one_tail: u64,
    /// Long low pulse that writes a zero.
    pub write_zero_low: u64,
    /// Idle time that completes a zero slot.
    pub write_zero_tail: u64,
    /// Low pulse that opens a read slot.
    pub read_low: u64,
    /// Wait after release before sampling the device's reply.
    pub read_sample_wait: u64,
    /// Idle time that completes the read slot.
    pub read_tail: u64,
}

impl BusTimings {
    /// Every slot has its fixed protocol duration, and the low pulse for a
    /// one is strictly shorter than for a zero — the asymmetry is what
    /// encodes the bit on the line.
    pub open spec fn wf(&self) -> bool {
        &&& self.reset_low + self.reset_sample_wait + self.reset_tail == 960
        &&& self.write_one_low + self.write_one_tail == 70
        &&& self.write_zero_low + self.write_zero_tail == 70
        &&& self.read_low + self.read_sample_wait + self.read_tail == 70
        &&& self.write_one_low < self.write_zero_low
    }

    /// The standard timing set: 480/70/410 µs for the reset slot, 6/64 µs for
    /// a one, 60/10 µs for a zero, 6/9/55 µs for a read.
    pub fn standard() -> (t: BusTimings)
        ensures
            t.wf(),
            t == (BusTimings {
                reset_low: 480,
                reset_sample_wait: 70,
                reset_tail: 410,
                write_one_low: 6,
                write_one_tail: 64,
                write_zero_low: 60,
                write_zero_tail: 10,
                read_low: 6,
                read_sample_wait: 9,
                read_tail: 55,
            }),
    {
        BusTimings {
            reset_low: 480,
            reset_sample_wait: 70,
            reset_tail: 410,
            write_one_low: 6,
            write_one_tail: 64,
            write_zero_low: 60,
            write_zero_tail: 10,
            read_low: 6,
            read_sample_wait: 9,
            read_tail: 55,
        }
    }
}

/// The reset schedule: drive low, release, sample for the presence pulse,
/// then idle out the slot.
pub open spec fn reset_schedule_spec(t: BusTimings) -> Seq<LineAction> {
    seq![
        LineAction::DriveLow,
        LineAction::DelayMicros(t.reset_low),
        LineAction::ReleaseHigh,
        LineAction::DelayMicros(t.reset_sample_wait),
        LineAction::SampleLine,
        LineAction::DelayMicros(t.reset_tail),
    ]
}

/// The schedule that writes one bit: the low pulse is short for a one, long
/// for a zero, and the slot is idled out either way.
pub open spec fn write_bit_schedule_spec(t: BusTimings, bit: bool) -> Seq<LineAction> {
    if bit {
        seq![
            LineAction::DriveLow,
            LineAction::DelayMicros(t.write_one_low),
            LineAction::ReleaseHigh,
            LineAction::DelayMicros(t.write_one_tail),
        ]
    } else {
        seq![
            LineAction::DriveLow,
            LineAction::DelayMicros(t.write_zero_low),
            LineAction::ReleaseHigh,
            LineAction::DelayMicros(t.write_zero_tail),
        ]
    }
}

/// The schedule that reads one bit: a short low pulse opens the slot, the
/// line settles, the device's level is sampled, and the slot is idled out.
pub open spec fn read_bit_schedule_spec(t: BusTimings) -> Seq<LineAction> {
    seq![
        LineAction::DriveLow,
        LineAction::DelayMicros(t.read_low),
        LineAction::ReleaseHigh,
        LineAction::DelayMicros(t.read_sample_wait),
        LineAction::SampleLine,
        LineAction::DelayMicros(t.read_tail),
    ]
}

/// Emit the reset schedule.
pub fn reset_schedule(t: &BusTimings) -> (acts: Vec<LineAction>)
    ensures
        acts@ == reset_schedule_spec(*t),
{
    let mut acts: Vec<LineAction> = Vec::new();
    acts.push(LineAction::DriveLow);
    acts.push(LineAction::DelayMicros(t.reset_low));
    acts.push(LineAction::ReleaseHigh);
    acts.push(LineAction::DelayMicros(t.reset_sample_wait));
    acts.push(LineAction::SampleLine);
    acts.push(LineAction::DelayMicros(t.reset_tail));
    proof {
        assert(acts@ =~= reset_schedule_spec(*t));
    }
    acts
}

/// Emit the schedule that writes one bit.
pub fn write_bit_schedule(t: &BusTimings, bit: bool) -> (acts: Vec<LineAction>)
    ensures
        acts@ == write_bit_schedule_spec(*t, bit),
{
    let mut acts: Vec<LineAction> = Vec::new();
    acts.push(LineAction::DriveLow);
    if bit {
        acts.push(LineAction::DelayMicros(t.write_one_low));
        acts.push(LineAction::ReleaseHigh);
        acts.push(LineAction::DelayMicros(t.write_one_tail));
    } else {
        acts.push(LineAction::DelayMicros(t.write_zero_low));
        acts.push(LineAction::ReleaseHigh);
        acts.push(LineAction::DelayMicros(t.write_zero_tail));
    }
    proof {
        assert(acts@ =~= write_bit_schedule_spec(*t, bit));
    }
    acts
}

/// Emit the schedule that reads one bit.
pub fn read_bit_schedule(t: &BusTimings) -> (acts: Vec<LineAction>)
    ensures
        acts@ == read_bit_schedule_spec(*t),
{
    let mut acts: Vec<LineAction> = Vec::new();
    acts.push(LineAction::DriveLow);
    acts.push(LineAction::DelayMicros(t.read_low));
    acts.push(LineAction::ReleaseHigh);
    acts.push(LineAction::DelayMicros(t.read_sample_wait));
    acts.push(LineAction::SampleLine);
    acts.push(LineAction::DelayMicros(t.read_tail));
    proof {
        assert(acts@ =~= read_bit_schedule_spec(*t));
    }
    acts
}

/// Decode the reset sample: the device announces itself by holding the
/// released line low.
pub fn presence_from_sample(sampled_high: bool) -> (present: bool)
    ensures
        present == !sampled_high,
{
    !sampled_high
}

/// Decode a read-slot sample: a line left high by the device is a one.
pub fn bit_from_sample(sampled_high: bool) -> (bit: bool)
    ensures
        bit == sampled_high,
{
    sampled_high
}

/// Well-formed timings give every schedule its fixed slot duration: 960 µs
/// for a reset, 70 µs for either bit value and for a read.
pub proof fn lemma_slot_durations(t: BusTimings, bit: bool)
    requires
        t.wf(),
    ensures
        total_delay(reset_schedule_spec(t)) == 960,
        total_delay(write_bit_schedule_spec(t, bit)) == 70,
        total_delay(read_bit_schedule_spec(t)) == 70,
{
    reveal_with_fuel(delay_from, 8);
    assert(total_delay(reset_schedule_spec(t)) == t.reset_low + t.reset_sample_wait
        + t.reset_tail);
    assert(total_delay(write_bit_schedule_spec(t, true)) == t.write_one_low + t.write_one_tail);
    assert(total_delay(write_bit_schedule_spec(t, false)) == t.write_zero_low
        + t.write_zero_tail);
    assert(total_delay(read_bit_schedule_spec(t)) == t.read_low + t.read_sample_wait
        + t.read_tail);
}

/// Bit `i` of a byte; the bus transmits bit 0 first (least-significant bit
/// first).
pub open spec fn bit_of(byte: u8, i: u8) -> bool {
    (byte >> i) & 1 == 1
}

/// The eight bits of a byte in wire order: least-significant bit first.
pub fn byte_bits(byte: u8) -> (bits: Vec<bool>)
    ensures
        bits@.len() == 8,
        forall|i: u8| i < 8 ==> bits@[i as int] == bit_of(byte, i),
{
    let mut bits: Vec<bool> = Vec::new();
    let mut i: u8 = 0;
    while i < 8
        invariant
            i <= 8,
            bits@.len() == i as int,
            forall|j: u8| j < i ==> bits@[j as int] == bit_of(byte, j),
        decreases 8 - i,
    {
        bits.push((byte >> i) & 1 == 1);
        i = i + 1;
    }
    bits
}

/// Assemble a byte from eight bits in wire order: bit `i` of the result is
/// the `i`-th bit received.
pub fn byte_from_bits(bits: &Vec<bool>) -> (byte: u8)
    requires
        bits@.len() == 8,
    ensures
        forall|i: u8| i < 8 ==> bit_of(byte, i) == bits@[i as int],
{
    let mut byte: u8 = 0;
    let mut i: u8 = 0;
    proof {
        assert(forall|j: u8| j < 8 ==> ((0u8 >> j) & 1) == 0) by (bit_vector);
    }
    while i < 8
        invariant
            i <= 8,
            bits@.len() == 8,
            forall|j: u8| j < i ==> bit_of(byte, j) == bits@[j as int],
            forall|j: u8| i <= j < 8 ==> !bit_of(byte, j),
        decreases 8 - i,
    {
        let ghost before = byte;
        let ghost k = i;
        if bits[i as usize] {
            byte = byte | (1u8 << i);
            proof {
                let nb = byte;
                assert forall|j: u8| j < 8 implies #[trigger] bit_of(nb, j) == (if j == k {
                    true
                } else {
                    bit_of(before, j)
                }) by {
                    assert((k < 8 && nb == before | (1u8 << k)) ==> ((((nb >> j) & 1 == 1) == (
                    if j == k {
                        true
                    } else {
                        (before >> j) & 1 == 1
                    })))) by (bit_vector);
                }
            }
        }
        i = i + 1;
    }
    byte
}

/// The bit slots that write a byte, from bit `i` on: one write-bit schedule
/// per bit, least-significant bit first.
pub open spec fn write_byte_schedule_from(t: BusTimings, byte: u8, i: int) -> Seq<LineAction>
    decreases 8 - i,
{
    if i < 0 || i >= 8 {
        seq![]
    } else {
        write_bit_schedule_spec(t, bit_of(byte, i as u8)) + write_byte_schedule_from(t, byte, i + 1)
    }
}

/// The schedule that writes a whole byte: its eight bit slots back to back.
pub open spec fn write_byte_schedule_spec(t: BusTimings, byte: u8) -> Seq<LineAction> {
    write_byte_schedule_from(t, byte, 0)
}

/// Emit the schedule that writes a whole byte, least-significant bit first.
pub fn write_byte_schedule(t: &BusTimings, byte: u8) -> (acts: Vec<LineAction>)
    ensures
        acts@ == write_byte_schedule_spec(*t, byte),
{
    let mut acts: Vec<LineAction> = Vec::new();
    let mut i: u8 = 0;
    proof {
        assert(acts@ + write_byte_schedule_from(*t, byte, 0) =~= write_byte_schedule_spec(
            *t,
            byte,
        ));
    }
    while i < 8
        invariant
            i <= 8,
            acts@ + write_byte_schedule_from(*t, byte, i as int) == write_byte_schedule_spec(
                *t,
                byte,
            ),
        decreases 8 - i,
    {
        let mut slot = write_bit_schedule(t, (byte >> i) & 1 == 1);
        proof {
            assert((acts@ + slot@) + write_byte_schedule_from(*t, byte, i as int + 1) =~= acts@
                + write_byte_schedule_from(*t, byte, i as int));
        }
        acts.append(&mut slot);
        i = i + 1;
    }
    proof {
        assert(acts@ =~= write_byte_schedule_spec(*t, byte));
    }
    acts
}

/// A whole read byte takes eight read slots; the samples they yield, handed
/// to `byte_from_bits` in order, form the byte.
pub open spec fn read_byte_schedule_spec(t: BusTimings, i: int) -> Seq<LineAction>
    decreases 8 - i,
{
    if i < 0 || i >= 8 {
        seq![]
    } else {
        read_bit_schedule_spec(t) + read_byte_schedule_spec(t, i + 1)
    }
}

/// Emit the schedule that reads a whole byte: eight read slots back to back.
pub fn read_byte_schedule(t: &BusTimings) -> (acts: Vec<LineAction>)
    ensures
        acts@ == read_byte_schedule_spec(*t, 0),
{
    let mut acts: Vec<LineAction> = Vec::new();
    let mut i: u8 = 0;
    proof {
        assert(acts@ + read_byte_schedule_spec(*t, 0) =~= read_byte_schedule_spec(*t, 0));
    }
    while i < 8
        invariant
            i <= 8,
            acts@ + read_byte_schedule_spec(*t, i as int) == read_byte_schedule_spec(*t, 0),
        decreases 8 - i,
    {
        let mut slot = read_bit_schedule(t);
        proof {
            assert((acts@ + slot@) + read_byte_schedule_spec(*t, i as int + 1) =~= acts@
                + read_byte_schedule_spec(*t, i as int));
        }
        acts.append(&mut slot);
        i = i + 1;
    }
    proof {
        assert(acts@ =~= read_byte_schedule_spec(*t, 0));
    }
    acts
}

proof fn lemma_delay_from_offset(a: Seq<LineAction>, b: Seq<LineAction>, j: int)
    requires
        0 <= j <= b.len(),
    ensures
        delay_from(a + b, a.len() + j) == delay_from(b, j),
    decreases b.len() - j,
{
    if j < b.len() {
        assert((a + b)[a.len() + j] == b[j]);
        lemma_delay_from_offset(a, b, j + 1);
    }
}

proof fn lemma_delay_from_concat(a: Seq<LineAction>, b: Seq<LineAction>, i: int)
    requires
        0 <= i <= a.len(),
    ensures
        delay_from(a + b, i) == delay_from(a, i) + delay_from(b, 0),
    decreases a.len() - i,
{
    if i == a.len() {
        lemma_delay_from_offset(a, b, 0);
    } else {
        assert((a + b)[i] == a[i]);
        lemma_delay_from_concat(a, b, i + 1);
    }
}

/// Delays add over concatenated schedules.
proof fn lemma_delay_concat(a: Seq<LineAction>, b: Seq<LineAction>)
    ensures
        total_delay(a + b) == total_delay(a) + total_delay(b),
{
    lemma_delay_from_concat(a, b, 0);
}

proof fn lemma_write_byte_duration_from(t: BusTimings, byte: u8, i: int)
    requires
        t.wf(),
        0 <= i <= 8,
    ensures
        total_delay(write_byte_schedule_from(t, byte, i)) == (8 - i) * 70,
    decreases 8 - i,
{
    if i < 8 {
        lemma_slot_durations(t, bit_of(byte, i as u8));
        lemma_delay_concat(
            write_bit_schedule_spec(t, bit_of(byte, i as u8)),
            write_byte_schedule_from(t, byte, i + 1),
        );
        lemma_write_byte_duration_from(t, byte, i + 1);
    }
}

proof fn lemma_read_byte_duration_from(t: BusTimings, i: int)
    requires
        t.wf(),
        0 <= i <= 8,
    ensures
        total_delay(read_byte_schedule_spec(t, i)) == (8 - i) * 70,
    decreases 8 - i,
{
    if i < 8 {
        lemma_slot_durations(t, false);
        lemma_delay_concat(read_bit_schedule_spec(t), read_byte_schedule_spec(t, i + 1));
        lemma_read_byte_duration_from(t, i + 1);
    }
}

/// The worst-case time the bus is held without yielding is bounded: a whole
/// byte, written or read, occupies 560 µs of slots, and a reset 960 µs.
pub proof fn lemma_atomic_durations(t: BusTimings, byte: u8)
    requires
        t.wf(),
    ensures
        total_delay(write_byte_schedule_spec(t, byte)) == 560,
        total_delay(read_byte_schedule_spec(t, 0)) == 560,
        total_delay(reset_schedule_spec(t)) == 960,
{
    lemma_write_byte_duration_from(t, byte, 0);
    lemma_read_byte_duration_from(t, 0);
    lemma_slot_durations(t, false);
}

/// Reading back the bits of a byte reassembles the same byte: the wire order
/// round-trips.
pub proof fn lemma_bits_round_trip(a: u8, b: u8)
    requires
        forall|i: u8| i < 8 ==> bit_of(a, i) == bit_of(b, i),
    ensures
        a == b,
{
    assert(bit_of(a, 0) == bit_of(b, 0));
    assert(bit_of(a, 1) == bit_of(b, 1));
    assert(bit_of(a, 2) == bit_of(b, 2));
    assert(bit_of(a, 3) == bit_of(b, 3));
    assert(bit_of(a, 4) == bit_of(b, 4));
    assert(bit_of(a, 5) == bit_of(b, 5));
    assert(bit_of(a, 6) == bit_of(b, 6));
    assert(bit_of(a, 7) == bit_of(b, 7));
    assert((((a >> 0u8) & 1 == 1) == ((b >> 0u8) & 1 == 1) && ((a >> 1u8) & 1 == 1) == ((b >> 1u8)
        & 1 == 1) && ((a >> 2u8) & 1 == 1) == ((b >> 2u8) & 1 == 1) && ((a >> 3u8) & 1 == 1) == ((b
        >> 3u8) & 1 == 1) && ((a >> 4u8) & 1 == 1) == ((b >> 4u8) & 1 == 1) && ((a >> 5u8) & 1
        == 1) == ((b >> 5u8) & 1 == 1) && ((a >> 6u8) & 1 == 1) == ((b >> 6u8) & 1 == 1) && ((a
        >> 7u8) & 1 == 1) == ((b >> 7u8) & 1 == 1)) ==> a == b) by (bit_vector);
}

} // verus!
