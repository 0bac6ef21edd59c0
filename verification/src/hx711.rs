//! Driver core for the 24-bit load-cell converter: raw samples, the
//! conversion read-out, averaging, and the calibration with its persistent
//! record.
use vstd::prelude::*;
use vstd::arithmetic::power2::{lemma2_to64, lemma_pow2_strictly_increases, lemma_pow2_unfold, pow2};
use crate::binary32::{Binary32, EPSILON_BITS, ONE_BITS};
use crate::bytes::{le_bytes, le_value};

verus! {

/// Smallest reading the converter can deliver.
pub const HX711_MINIMUM: i32 = -8_388_608;

/// Largest reading the converter can deliver.
pub const HX711_MAXIMUM: i32 = 8_388_607;

/// Microseconds between two edges of the clock line.
pub const HX711_DELAY_TIME_US: u32 = 1;

/// Number of data bits in a conversion.
pub const HX711_DATA_BITS: usize = 24;

/// The sign bit of a conversion.
pub const HX711_SIGN_BIT: u32 = 0x80_0000;

/// Where the calibration record lies in persistent storage.
pub const NVS_ADDR: u32 = 0x9000;

/// Number of samples averaged by a tare.
pub const DEFAULT_TARING_SAMPLES: usize = 16;

/// Number of samples averaged for a calibration point.
pub const DEFAULT_CALIBRATION_SAMPLES: usize = 100;

/// Bit pattern of the built-in calibration factor, 0.066.
pub const DEFAULT_CALIBRATION_FACTOR_BITS: u32 = 0x3D87_2B02;

/// What can go wrong while handling the calibration.
#[derive(Clone, Copy, Debug, PartialEq, Eq, Structural)]
pub enum Hx711Error {
    /// The calibration could not be read from, or written to, persistent
    /// storage.
    FlashError,
    /// The calibration value is zero or not finite.
    InvalidCalibration,
}

impl Hx711Error {
    /// A short description of the error.
    pub fn description(&self) -> (text: &'static str)
        ensures
            text@ == match self {
                Hx711Error::FlashError => "Flash storage error"@,
                Hx711Error::InvalidCalibration => "Invalid calibration value"@,
            },
    {
        match self {
            Hx711Error::FlashError => "Flash storage error",
            Hx711Error::InvalidCalibration => "Invalid calibration value",
        }
    }
}

/// Amplifier setting of the converter, selected by the number of extra clock
/// pulses that follow a conversion.
#[derive(Clone, Copy, Debug, PartialEq, Eq, Structural)]
pub enum GainMode {
    /// Gain of 128 on channel A.
    A128,
    /// Gain of 32 on channel B.
    B32,
    /// Gain of 64 on channel A.
    A64,
}

impl GainMode {
    /// Number of clock pulses that select this setting for the next
    /// conversion.
    pub open spec fn spec_pulses(self) -> nat {
        match self {
            GainMode::A128 => 1,
            GainMode::B32 => 2,
            GainMode::A64 => 3,
        }
    }

    /// Number of clock pulses that select this setting for the next
    /// conversion.
    pub fn pulses(self) -> (n: u8)
        ensures
            n == self.spec_pulses(),
    {
        match self {
            GainMode::A128 => 1,
            GainMode::B32 => 2,
            GainMode::A64 => 3,
        }
    }
}

/// The number a 32-bit register stands for once bit 23 is taken as its
/// sign: where that bit is set, the upper eight bits are filled with ones
/// and the register is read as two's complement.
pub open spec fn sign_extend_24(register: u32) -> int {
    if (register / HX711_SIGN_BIT) % 2 == 1 {
        (register % 0x100_0000) as int - 0x100_0000
    } else if register >= 0x8000_0000 {
        register as int - 0x1_0000_0000
    } else {
        register as int
    }
}

/// `value` brought into the range from `low` to `high`.
pub open spec fn clamp(value: int, low: int, high: int) -> int {
    if value < low {
        low
    } else if value > high {
        high
    } else {
        value
    }
}

/// On 24-bit registers, sign extension subtracts 2^24 from the values that
/// have bit 23 set, and the result needs no clamping.
pub proof fn lemma_sign_extend_24_bit(register: u32)
    requires
        register < 0x100_0000,
    ensures
        sign_extend_24(register) == if register >= HX711_SIGN_BIT {
            register - 0x100_0000
        } else {
            register as int
        },
        HX711_MINIMUM <= sign_extend_24(register) <= HX711_MAXIMUM,
{
}

/// A reading of the converter: a 24-bit two's-complement number, so never
/// below `HX711_MINIMUM` nor above `HX711_MAXIMUM`.
#[derive(Clone, Copy, Debug, PartialEq, Eq)]
pub struct RawSample {
    value: i32,
}

impl View for RawSample {
    type V = int;

    closed spec fn view(&self) -> int {
        self.value as int
    }
}

impl RawSample {
    #[verifier::type_invariant]
    closed spec fn in_range(self) -> bool {
        HX711_MINIMUM <= self.value <= HX711_MAXIMUM
    }

    /// The reading a register holds after the 24 data bits were shifted
    /// into it: the sign-extended register, clamped to the converter's range.
    pub fn from_register(register: u32) -> (sample: RawSample)
        ensures
            sample@ == clamp(sign_extend_24(register), HX711_MINIMUM as int, HX711_MAXIMUM as int),
    {
        let extended: i64 = if (register / HX711_SIGN_BIT) % 2 == 1 {
            (register % 0x100_0000) as i64 - 0x100_0000
        } else if register >= 0x8000_0000 {
            register as i64 - 0x1_0000_0000
        } else {
            register as i64
        };
        RawSample::clamped(extended)
    }

    /// The reading nearest to `value`.
    pub fn clamped(value: i64) -> (sample: RawSample)
        ensures
            sample@ == clamp(value as int, HX711_MINIMUM as int, HX711_MAXIMUM as int),
    {
        if value < HX711_MINIMUM as i64 {
            RawSample { value: HX711_MINIMUM }
        } else if value > HX711_MAXIMUM as i64 {
            RawSample { value: HX711_MAXIMUM }
        } else {
            RawSample { value: value as i32 }
        }
    }

    /// The reading as a number.
    pub fn get(self) -> (value: i32)
        ensures
            value == self@,
            HX711_MINIMUM <= value <= HX711_MAXIMUM,
    {
        proof {
            use_type_invariant(&self);
        }
        self.value
    }
}

/// What the driver does to the two lines of the converter.
#[derive(Clone, Copy, Debug, PartialEq, Eq, Structural)]
pub enum LineOp {
    /// Drive the clock line high.
    ClockHigh,
    /// Drive the clock line low.
    ClockLow,
    /// Wait for the given number of microseconds.
    DelayUs(u32),
    /// Read the level of the data line.
    Sample,
}

/// The line operations that shift one data bit out of the converter: a
/// clock pulse with the data line read while the clock is high.
pub open spec fn bit_slot() -> Seq<LineOp> {
    seq![
        LineOp::ClockHigh,
        LineOp::DelayUs(HX711_DELAY_TIME_US),
        LineOp::Sample,
        LineOp::ClockLow,
        LineOp::DelayUs(HX711_DELAY_TIME_US),
    ]
}

/// The line operations of one gain pulse.
pub open spec fn pulse_slot() -> Seq<LineOp> {
    seq![
        LineOp::ClockHigh,
        LineOp::DelayUs(HX711_DELAY_TIME_US),
        LineOp::ClockLow,
        LineOp::DelayUs(HX711_DELAY_TIME_US),
    ]
}

/// `slot` written `times` times in a row.
pub open spec fn repeated(slot: Seq<LineOp>, times: nat) -> Seq<LineOp>
    decreases times,
{
    if times == 0 {
        Seq::empty()
    } else {
        repeated(slot, (times - 1) as nat) + slot
    }
}

/// The line operations of one read-out, in order: 24 data bits, then the
/// pulses that select the gain of the next conversion.
pub open spec fn read_plan(gain_mode: GainMode) -> Seq<LineOp> {
    repeated(bit_slot(), HX711_DATA_BITS as nat) + repeated(pulse_slot(), gain_mode.spec_pulses())
}

/// The number written by a sequence of bits, most significant first.
pub open spec fn bits_value(bits: Seq<bool>) -> nat
    decreases bits.len(),
{
    if bits.len() == 0 {
        0
    } else {
        2 * bits_value(bits.drop_last()) + if bits.last() {
            1nat
        } else {
            0nat
        }
    }
}

/// A repeated slot is as long as its copies together, and its operation
/// at an index is the slot's operation at the index within a copy.
pub proof fn lemma_repeated_index(slot: Seq<LineOp>, times: nat, i: int)
    requires
        slot.len() > 0,
        0 <= i < times * slot.len(),
    ensures
        repeated(slot, times).len() == times * slot.len(),
        repeated(slot, times)[i] == slot[i % (slot.len() as int)],
    decreases times,
{
    lemma_repeated_len(slot, times);
    let len = slot.len() as int;
    let before = (times - 1) * len;
    assert(before == times * len - len) by (nonlinear_arith)
        requires
            before == (times - 1) * len,
    ;
    lemma_repeated_len(slot, (times - 1) as nat);
    if i < before {
        lemma_repeated_index(slot, (times - 1) as nat, i);
    } else {
        assert(repeated(slot, times)[i] == slot[i - before]);
        assert(i % len == i - before) by (nonlinear_arith)
            requires
                before == (times - 1) * len,
                before <= i < before + len,
                times >= 1,
        ;
    }
}

/// A repeated slot is as long as its copies together.
pub proof fn lemma_repeated_len(slot: Seq<LineOp>, times: nat)
    ensures
        repeated(slot, times).len() == times * slot.len(),
    decreases times,
{
    let len = slot.len() as int;
    if times > 0 {
        lemma_repeated_len(slot, (times - 1) as nat);
        assert(repeated(slot, times) == repeated(slot, (times - 1) as nat) + slot);
        assert((times - 1) * len + len == times * len) by (nonlinear_arith);
    } else {
        assert(times * len == 0) by (nonlinear_arith)
            requires
                times == 0,
        ;
    }
}

/// A number written with n bits is below 2^n.
pub proof fn lemma_bits_value_bound(bits: Seq<bool>)
    ensures
        bits_value(bits) < pow2(bits.len()),
    decreases bits.len(),
{
    if bits.len() == 0 {
        lemma2_to64();
    } else {
        lemma_bits_value_bound(bits.drop_last());
        lemma_pow2_unfold(bits.len());
    }
}

/// The read-out of one conversion, step by step.
///
/// The caller carries out the operation that `next_op` names, then calls
/// `advance` with the level it read (for operations other than `Sample`
/// the level is ignored), until `next_op` names none. The whole read-out
/// must run without interruption, since the converter depends on the
/// timing of the clock edges.
#[derive(Clone, Copy)]
pub struct ReadCycle {
    gain_mode: GainMode,
    step: usize,
    register: u32,
    levels: Ghost<Seq<bool>>,
}

impl ReadCycle {
    #[verifier::type_invariant]
    closed spec fn inv(self) -> bool {
        &&& self.step <= 5 * HX711_DATA_BITS + 4 * self.gain_mode.spec_pulses()
        &&& self.levels@.len() == if self.step <= 5 * HX711_DATA_BITS {
            (self.step + 2) / 5
        } else {
            HX711_DATA_BITS as int
        }
        &&& self.register == bits_value(self.levels@)
    }

    /// The gain that the read-out selects for the next conversion.
    pub closed spec fn spec_gain_mode(self) -> GainMode {
        self.gain_mode
    }

    /// Number of line operations carried out so far.
    pub closed spec fn steps_done(self) -> nat {
        self.step as nat
    }

    /// The levels read from the data line so far, first one first: `true`
    /// for high.
    pub closed spec fn levels(self) -> Seq<bool> {
        self.levels@
    }

    /// The line operations of this read-out.
    pub open spec fn plan(self) -> Seq<LineOp> {
        read_plan(self.spec_gain_mode())
    }

    /// The operation to carry out next, if any is left.
    pub open spec fn spec_next_op(self) -> Option<LineOp> {
        if self.steps_done() < self.plan().len() {
            Some(self.plan()[self.steps_done() as int])
        } else {
            None
        }
    }

    /// All line operations were carried out.
    pub open spec fn spec_is_done(self) -> bool {
        self.steps_done() >= self.plan().len()
    }

    /// A read-out that has not begun.
    pub fn new(gain_mode: GainMode) -> (cycle: ReadCycle)
        ensures
            cycle.spec_gain_mode() == gain_mode,
            cycle.steps_done() == 0,
            cycle.levels() == Seq::<bool>::empty(),
    {
        ReadCycle { gain_mode, step: 0, register: 0, levels: Ghost(Seq::empty()) }
    }

    /// The operation to carry out next, if any is left.
    pub fn next_op(&self) -> (op: Option<LineOp>)
        ensures
            op == self.spec_next_op(),
    {
        proof {
            use_type_invariant(self);
            self.lemma_plan_at(self.step as int);
        }
        let data_ops: usize = 5 * HX711_DATA_BITS;
        let pulse_ops: usize = 4 * (self.gain_mode.pulses() as usize);
        if self.step < data_ops {
            let phase = self.step % 5;
            if phase == 0 {
                Some(LineOp::ClockHigh)
            } else if phase == 2 {
                Some(LineOp::Sample)
            } else if phase == 3 {
                Some(LineOp::ClockLow)
            } else {
                Some(LineOp::DelayUs(HX711_DELAY_TIME_US))
            }
        } else if self.step < data_ops + pulse_ops {
            let phase = (self.step - data_ops) % 4;
            if phase == 0 {
                Some(LineOp::ClockHigh)
            } else if phase == 2 {
                Some(LineOp::ClockLow)
            } else {
                Some(LineOp::DelayUs(HX711_DELAY_TIME_US))
            }
        } else {
            None
        }
    }

    /// Whether all line operations were carried out.
    pub fn is_done(&self) -> (done: bool)
        ensures
            done == self.spec_is_done(),
    {
        proof {
            use_type_invariant(self);
            self.lemma_plan_at(0);
        }
        self.step >= 5 * HX711_DATA_BITS + 4 * (self.gain_mode.pulses() as usize)
    }

    /// Records that the operation named by `next_op` was carried out;
    /// `level` is what a `Sample` operation read from the data line. A
    /// read-out that is done stays as it is.
    pub fn advance(&mut self, level: bool)
        ensures
            final(self).spec_gain_mode() == old(self).spec_gain_mode(),
            final(self).steps_done() == if old(self).spec_is_done() {
                old(self).steps_done()
            } else {
                old(self).steps_done() + 1
            },
            final(self).levels() == if old(self).spec_next_op() == Some(LineOp::Sample) {
                old(self).levels().push(level)
            } else {
                old(self).levels()
            },
    {
        proof {
            use_type_invariant(&*self);
            self.lemma_plan_at(self.step as int);
        }
        let op = self.next_op();
        match op {
            None => {},
            Some(LineOp::Sample) => {
                proof {
                    assert(self.step < 5 * HX711_DATA_BITS);
                    assert(self.levels@.len() < 24);
                    lemma_bits_value_bound(self.levels@);
                    lemma_pow2_strictly_increases(self.levels@.len(), 24);
                    lemma_pow2_unfold(24);
                    lemma2_to64();
                    assert(self.levels@.push(level).drop_last() =~= self.levels@);
                }
                let bit: u32 = if level {
                    1
                } else {
                    0
                };
                let register = 2 * self.register + bit;
                let step = self.step + 1;
                let levels = Ghost(self.levels@.push(level));
                *self = ReadCycle { gain_mode: self.gain_mode, step, register, levels };
            },
            Some(_) => {
                proof {
                    if self.step < 5 * HX711_DATA_BITS {
                        assert(self.step % 5 != 2);
                    }
                }
                let step = self.step + 1;
                *self =
                ReadCycle {
                    gain_mode: self.gain_mode,
                    step,
                    register: self.register,
                    levels: self.levels,
                };
            },
        }
    }

    /// The reading, once the read-out is done: the 24 levels read from the
    /// data line, taken as a two's-complement number, most significant bit
    /// first.
    pub fn sample(&self) -> (sample: Option<RawSample>)
        ensures
            sample is Some <==> self.spec_is_done(),
            sample matches Some(s) ==> {
                &&& self.levels().len() == HX711_DATA_BITS
                &&& s@ == sign_extend_24(bits_value(self.levels()) as u32)
                &&& bits_value(self.levels()) < 0x100_0000
            },
    {
        if self.is_done() {
            proof {
                use_type_invariant(self);
                self.lemma_plan_at(0);
                assert(self.levels@.len() == 24);
                lemma_bits_value_bound(self.levels@);
                lemma2_to64();
                lemma_sign_extend_24_bit(self.register);
            }
            Some(RawSample::from_register(self.register))
        } else {
            None
        }
    }

    /// The plan has five operations for each data bit and four for each
    /// gain pulse; `i` selects the operation that is looked at.
    proof fn lemma_plan_at(self, i: int)
        ensures
            self.plan().len() == 5 * HX711_DATA_BITS + 4 * self.gain_mode.spec_pulses(),
            0 <= i < 5 * HX711_DATA_BITS ==> self.plan()[i] == bit_slot()[i % 5],
            5 * HX711_DATA_BITS <= i < self.plan().len() ==> self.plan()[i] == pulse_slot()[(i
                - 5 * HX711_DATA_BITS) % 4],
    {
        let data = repeated(bit_slot(), HX711_DATA_BITS as nat);
        let pulses = repeated(pulse_slot(), self.gain_mode.spec_pulses());
        lemma_repeated_len(bit_slot(), HX711_DATA_BITS as nat);
        lemma_repeated_len(pulse_slot(), self.gain_mode.spec_pulses());
        if 0 <= i < 5 * HX711_DATA_BITS {
            lemma_repeated_index(bit_slot(), HX711_DATA_BITS as nat, i);
        } else if 5 * HX711_DATA_BITS <= i < self.plan().len() {
            lemma_repeated_index(
                pulse_slot(),
                self.gain_mode.spec_pulses(),
                i - 5 * HX711_DATA_BITS,
            );
        }
    }
}

/// The numbers of a sequence of readings.
pub open spec fn readings(samples: Seq<RawSample>) -> Seq<int> {
    samples.map_values(|sample: RawSample| sample@)
}

/// The quotient of `a` by a positive `d`, rounded toward zero.
pub open spec fn div_toward_zero(a: int, d: int) -> int {
    if a >= 0 {
        a / d
    } else {
        -((-a) / d)
    }
}

/// The streaming mean of a sequence of readings: it starts at zero, and
/// the n-th reading moves it by the n-th part of its distance from it,
/// rounded toward zero.
pub open spec fn mean_of(samples: Seq<int>) -> int
    decreases samples.len(),
{
    if samples.len() == 0 {
        0
    } else {
        let previous = mean_of(samples.drop_last());
        previous + div_toward_zero(samples.last() - previous, samples.len() as int)
    }
}

/// One step of the streaming mean stays between the previous mean and the
/// new reading.
proof fn lemma_mean_step_between(previous: int, sample: int, count: int)
    requires
        count >= 1,
    ensures
        previous <= sample ==> previous <= previous + div_toward_zero(sample - previous, count)
            <= sample,
        sample <= previous ==> sample <= previous + div_toward_zero(sample - previous, count)
            <= previous,
        count == 1 ==> previous + div_toward_zero(sample - previous, count) == sample,
{
    let d = sample - previous;
    if d >= 0 {
        assert(0 <= d / count <= d) by (nonlinear_arith)
            requires
                d >= 0,
                count >= 1,
        ;
        if count == 1 {
            assert(d / 1 == d);
        }
    } else {
        let e = -d;
        assert(0 <= e / count <= e) by (nonlinear_arith)
            requires
                e > 0,
                count >= 1,
        ;
        if count == 1 {
            assert(e / 1 == e);
        }
    }
}

/// The streaming mean of readings that all lie between `low` and `high`
/// lies between them too, provided zero does.
pub proof fn lemma_mean_of_bounds(samples: Seq<int>, low: int, high: int)
    requires
        low <= 0 <= high,
        forall|i: int| 0 <= i < samples.len() ==> low <= #[trigger] samples[i] <= high,
    ensures
        low <= mean_of(samples) <= high,
    decreases samples.len(),
{
    if samples.len() > 0 {
        lemma_mean_of_bounds(samples.drop_last(), low, high);
        lemma_mean_step_between(
            mean_of(samples.drop_last()),
            samples.last(),
            samples.len() as int,
        );
    }
}

/// The streaming mean of one or more equal readings is that reading.
pub proof fn lemma_mean_of_constant(samples: Seq<int>, k: int)
    requires
        samples.len() >= 1,
        forall|i: int| 0 <= i < samples.len() ==> #[trigger] samples[i] == k,
    ensures
        mean_of(samples) == k,
    decreases samples.len(),
{
    if samples.len() == 1 {
        assert(samples.drop_last().len() == 0);
        assert(mean_of(samples.drop_last()) == 0);
        lemma_mean_step_between(0, samples.last(), 1);
    } else {
        lemma_mean_of_constant(samples.drop_last(), k);
        assert(div_toward_zero(0, samples.len() as int) == 0);
    }
}

/// Averages readings with a streaming mean, which needs no sum of all of
/// them. No readings average to zero.
pub fn streaming_mean(samples: &[RawSample]) -> (mean: RawSample)
    ensures
        mean@ == mean_of(readings(samples@)),
{
    let mut mean: i32 = 0;
    let mut i: usize = 0;
    while i < samples.len()
        invariant
            i <= samples@.len(),
            HX711_MINIMUM <= mean <= HX711_MAXIMUM,
            mean == mean_of(readings(samples@.take(i as int))),
        decreases samples@.len() - i,
    {
        let sample = samples[i].get();
        proof {
            let before = readings(samples@.take(i as int));
            let after = readings(samples@.take(i + 1));
            assert(after.drop_last() =~= before);
            assert(after.last() == sample);
            lemma_mean_step_between(mean as int, sample as int, i + 1);
        }
        let count: i128 = (i as i128) + 1;
        let step: i128 = (sample as i128 - mean as i128) / count;
        mean = (mean as i128 + step) as i32;
        i += 1;
    }
    assert(samples@.take(i as int) =~= samples@);
    RawSample::clamped(mean as i64)
}

/// A calibration factor can be used if it is a finite number other than
/// zero.
pub open spec fn valid_calibration_factor(factor: Binary32) -> bool {
    factor.spec_is_finite() && !factor.spec_is_zero()
}

/// The built-in calibration factor.
pub open spec fn default_calibration_factor() -> Binary32 {
    Binary32 { bits: DEFAULT_CALIBRATION_FACTOR_BITS }
}

/// What a read of the calibration record decodes to. `stored` holds the
/// four bytes found at `NVS_ADDR`, or nothing where the read failed.
pub open spec fn decoded_record(stored: Option<[u8; 4]>) -> Result<Binary32, Hx711Error> {
    match stored {
        None => Err(Hx711Error::FlashError),
        Some(bytes) => {
            let factor = Binary32 { bits: le_value(bytes@) as u32 };
            if valid_calibration_factor(factor) {
                Ok(factor)
            } else {
                Err(Hx711Error::InvalidCalibration)
            }
        },
    }
}

/// The calibration factor to work with after a read of the calibration
/// record: the stored factor, the built-in one where the stored one cannot
/// be used, or the error of a failed read.
pub open spec fn loaded_factor(stored: Option<[u8; 4]>) -> Result<Binary32, Hx711Error> {
    match decoded_record(stored) {
        Ok(factor) => Ok(factor),
        Err(Hx711Error::InvalidCalibration) => Ok(default_calibration_factor()),
        Err(Hx711Error::FlashError) => Err(Hx711Error::FlashError),
    }
}

/// Whether a two-point calibration is accepted: the two points are at
/// least the machine epsilon apart, the reference weight is above zero or
/// not a number, and the scale factor is valid. `span` is the second point
/// minus the first, `scale_factor` the reference weight divided by `span`.
pub open spec fn two_point_accepted(
    span: Binary32,
    target_weight: Binary32,
    scale_factor: Binary32,
) -> bool {
    &&& !span.spec_abs_lt(Binary32 { bits: EPSILON_BITS })
    &&& !target_weight.spec_is_at_most_zero()
    &&& valid_calibration_factor(scale_factor)
}

/// What the load-cell driver holds, as plain values.
pub struct Hx711View {
    /// The gain selected for the next conversion.
    pub gain_mode: GainMode,
    /// The tare baseline.
    pub tare_value: int,
    /// The calibration factor in use.
    pub calibration_factor: Binary32,
}

impl Hx711View {
    /// The driver after an attempt to set the calibration factor, where
    /// `stored` says whether the record was written: the factor changes
    /// only if it is valid and was written.
    pub open spec fn after_update(self, factor: Binary32, stored: bool) -> Hx711View {
        if valid_calibration_factor(factor) && stored {
            Hx711View { calibration_factor: factor, ..self }
        } else {
            self
        }
    }

    /// The driver after a tare on the given readings: their streaming mean
    /// becomes the baseline, unless the calibration factor is invalid.
    pub open spec fn after_tare(self, samples: Seq<int>) -> Hx711View {
        if valid_calibration_factor(self.calibration_factor) {
            Hx711View { tare_value: mean_of(samples), ..self }
        } else {
            self
        }
    }
}

/// A driver whose calibration factor is valid keeps a valid one through
/// every update and every tare.
pub proof fn lemma_calibration_stays_valid(
    driver: Hx711View,
    factor: Binary32,
    stored: bool,
    samples: Seq<int>,
)
    requires
        valid_calibration_factor(driver.calibration_factor),
    ensures
        valid_calibration_factor(driver.after_update(factor, stored).calibration_factor),
        valid_calibration_factor(driver.after_tare(samples).calibration_factor),
{
}

/// The outcome of an attempt to set the calibration factor, where `stored`
/// says whether the record was written.
pub open spec fn update_outcome(factor: Binary32, stored: bool) -> Result<(), Hx711Error> {
    if !valid_calibration_factor(factor) {
        Err(Hx711Error::InvalidCalibration)
    } else if !stored {
        Err(Hx711Error::FlashError)
    } else {
        Ok(())
    }
}

/// The state of the load-cell driver: the gain selected for the next
/// conversion, the tare baseline and the calibration factor.
///
/// The driver owns the calibration. It changes only through
/// `update_calibration_factor`, `default_calibration_factor`,
/// `perform_calibration` and `apply_two_point_calibration`, each of which
/// keeps the value in memory unless the new one is valid and was
/// persisted.
#[derive(Clone, Copy, Debug)]
pub struct Hx711 {
    gain_mode: GainMode,
    tare_value: RawSample,
    calibration_factor: Binary32,
}

impl View for Hx711 {
    type V = Hx711View;

    closed spec fn view(&self) -> Hx711View {
        Hx711View {
            gain_mode: self.gain_mode,
            tare_value: self.tare_value@,
            calibration_factor: self.calibration_factor,
        }
    }
}

impl Hx711 {
    /// Whether a calibration factor can be used: it is a finite number
    /// other than zero.
    pub fn is_valid_calibration_factor(factor: Binary32) -> (valid: bool)
        ensures
            valid == valid_calibration_factor(factor),
    {
        factor.is_finite() && !factor.is_zero()
    }

    /// Decodes what a read of the calibration record gave: `stored` holds
    /// the four bytes found at `NVS_ADDR`, or nothing where the read failed.
    /// A failed read is a `FlashError`, a record that holds no valid factor
    /// an `InvalidCalibration`.
    pub fn decode_calibration_record(stored: Option<[u8; 4]>) -> (factor: Result<
        Binary32,
        Hx711Error,
    >)
        ensures
            factor == decoded_record(stored),
    {
        match stored {
            None => Err(Hx711Error::FlashError),
            Some(bytes) => {
                let factor = Binary32::from_le_bytes(bytes);
                if !Hx711::is_valid_calibration_factor(factor) {
                    return Err(Hx711Error::InvalidCalibration);
                }
                Ok(factor)
            },
        }
    }

    /// The record to write to `NVS_ADDR` for a calibration factor: its four
    /// bytes, least significant first. An invalid factor has no record.
    pub fn calibration_record(factor: Binary32) -> (record: Result<[u8; 4], Hx711Error>)
        ensures
            record is Ok <==> valid_calibration_factor(factor),
            record matches Ok(bytes) ==> bytes@ == le_bytes(factor.bits),
            record matches Err(e) ==> e == Hx711Error::InvalidCalibration,
    {
        if !Hx711::is_valid_calibration_factor(factor) {
            return Err(Hx711Error::InvalidCalibration);
        }
        Ok(factor.to_le_bytes())
    }

    /// The calibration factor to work with after a read of the calibration
    /// record: the stored factor, the built-in one where the record holds no
    /// valid factor, or `FlashError` where the read failed.
    pub fn get_calibration_factor(stored: Option<[u8; 4]>) -> (factor: Result<
        Binary32,
        Hx711Error,
    >)
        ensures
            factor == loaded_factor(stored),
    {
        match Hx711::decode_calibration_record(stored) {
            Ok(factor) => Ok(factor),
            Err(Hx711Error::InvalidCalibration) => Ok(
                Binary32::from_bits(DEFAULT_CALIBRATION_FACTOR_BITS),
            ),
            Err(e) => Err(e),
        }
    }

    /// A driver with gain 64 on channel A, a tare baseline of zero, and the
    /// calibration factor that the read of the calibration record gave, or
    /// the built-in one where it gave none.
    pub fn new(stored: Option<[u8; 4]>) -> (driver: Hx711)
        ensures
            driver@ == (Hx711View {
                gain_mode: GainMode::A64,
                tare_value: 0,
                calibration_factor: match loaded_factor(stored) {
                    Ok(factor) => factor,
                    Err(_) => default_calibration_factor(),
                },
            }),
            valid_calibration_factor(driver@.calibration_factor),
    {
        let calibration_factor = match Hx711::get_calibration_factor(stored) {
            Ok(factor) => factor,
            Err(_) => Binary32::from_bits(DEFAULT_CALIBRATION_FACTOR_BITS),
        };
        Hx711 { gain_mode: GainMode::A64, tare_value: RawSample::clamped(0), calibration_factor }
    }

    /// Sets the calibration factor. `stored` says whether the caller wrote
    /// `calibration_record(factor)` to persistent storage; a caller that
    /// got no record has written nothing.
    ///
    /// An invalid factor is refused with `InvalidCalibration`, a failed write
    /// with `FlashError`; in both cases the factor in use stays what it was.
    pub fn update_calibration_factor(&mut self, factor: Binary32, stored: bool) -> (outcome:
        Result<(), Hx711Error>)
        ensures
            outcome == update_outcome(factor, stored),
            final(self)@ == old(self)@.after_update(factor, stored),
    {
        if !Hx711::is_valid_calibration_factor(factor) {
            return Err(Hx711Error::InvalidCalibration);
        }
        if !stored {
            return Err(Hx711Error::FlashError);
        }
        self.calibration_factor = factor;
        Ok(())
    }

    /// The calibration factor in use.
    pub fn current_calibration_factor(&self) -> (factor: Binary32)
        ensures
            factor == self@.calibration_factor,
    {
        self.calibration_factor
    }

    /// Restores the built-in calibration factor. `stored` says whether the
    /// caller wrote its record to persistent storage; after a failed write
    /// the factor in use stays what it was.
    pub fn default_calibration_factor(&mut self, stored: bool) -> (outcome: Result<
        (),
        Hx711Error,
    >)
        ensures
            outcome == update_outcome(default_calibration_factor(), stored),
            final(self)@ == old(self)@.after_update(default_calibration_factor(), stored),
    {
        self.update_calibration_factor(Binary32::from_bits(DEFAULT_CALIBRATION_FACTOR_BITS), stored)
    }

    /// Selects the gain for the next conversion.
    pub fn set_gain_mode(&mut self, gain_mode: GainMode)
        ensures
            final(self)@ == (Hx711View { gain_mode, ..old(self)@ }),
    {
        self.gain_mode = gain_mode;
    }

    /// The gain selected for the next conversion.
    pub fn gain_mode(&self) -> (gain_mode: GainMode)
        ensures
            gain_mode == self@.gain_mode,
    {
        self.gain_mode
    }

    /// The tare baseline.
    pub fn tare_value(&self) -> (tare: i32)
        ensures
            tare == self@.tare_value,
            HX711_MINIMUM <= tare <= HX711_MAXIMUM,
    {
        self.tare_value.get()
    }

    /// Begins the read-out of a conversion with the gain that is selected.
    pub fn read_raw(&self) -> (cycle: ReadCycle)
        ensures
            cycle.spec_gain_mode() == self@.gain_mode,
            cycle.steps_done() == 0,
            cycle.levels() == Seq::<bool>::empty(),
    {
        ReadCycle::new(self.gain_mode)
    }

    /// Tares the scale: the streaming mean of the readings becomes the
    /// baseline, so one or more equal readings become the baseline
    /// themselves. With an invalid calibration factor nothing changes.
    pub fn tare(&mut self, samples: &[RawSample])
        ensures
            final(self)@ == old(self)@.after_tare(readings(samples@)),
            valid_calibration_factor(old(self)@.calibration_factor) && samples@.len() >= 1 && (
            forall|i: int| 0 <= i < samples@.len() ==> (#[trigger] samples@[i])@ == samples@[0]@)
                ==> final(self)@.tare_value == samples@[0]@,
    {
        if !Hx711::is_valid_calibration_factor(self.calibration_factor) {
            return ;
        }
        proof {
            if samples@.len() >= 1 && (forall|i: int|
                0 <= i < samples@.len() ==> (#[trigger] samples@[i])@ == samples@[0]@) {
                lemma_mean_of_constant(readings(samples@), samples@[0]@);
            }
        }
        self.tare_value = streaming_mean(samples);
    }

    /// The reading with the tare baseline taken off.
    pub fn read_tared(&self, raw: RawSample) -> (tared: i32)
        ensures
            tared == raw@ - self@.tare_value,
    {
        raw.get() - self.tare_value.get()
    }

    /// Collects a calibration point: the calibration factor is reset to
    /// one, and the streaming mean of the readings is returned.
    ///
    /// `stored` says whether the caller wrote `calibration_record` of 1.0 to
    /// persistent storage; after a failed write the factor in use stays what
    /// it was.
    pub fn perform_calibration(&mut self, stored: bool, samples: &[RawSample]) -> (point: RawSample)
        ensures
            final(self)@ == old(self)@.after_update(Binary32 { bits: ONE_BITS }, stored),
            point@ == mean_of(readings(samples@)),
    {
        let _ = self.update_calibration_factor(Binary32::from_bits(ONE_BITS), stored);
        streaming_mean(samples)
    }

    /// Checks a two-point calibration and gives the record to persist for
    /// it. `span` is the second calibration point minus the first and
    /// `scale_factor` the reference weight divided by `span`, both computed
    /// by the caller in single precision.
    ///
    /// The calibration is refused with `InvalidCalibration` where the points
    /// are less than the machine epsilon apart, where the reference weight
    /// is not above zero, and where the scale factor is not valid.
    pub fn two_point_calibration_record(
        span: Binary32,
        target_weight: Binary32,
        scale_factor: Binary32,
    ) -> (record: Result<[u8; 4], Hx711Error>)
        ensures
            record is Ok <==> two_point_accepted(span, target_weight, scale_factor),
            record matches Ok(bytes) ==> bytes@ == le_bytes(scale_factor.bits),
            record matches Err(e) ==> e == Hx711Error::InvalidCalibration,
    {
        if span.abs_lt(Binary32::from_bits(EPSILON_BITS)) {
            return Err(Hx711Error::InvalidCalibration);
        }
        if target_weight.is_at_most_zero() {
            return Err(Hx711Error::InvalidCalibration);
        }
        Hx711::calibration_record(scale_factor)
    }

    /// Applies a two-point calibration. `span` is the second calibration
    /// point minus the first and `scale_factor` the reference weight divided
    /// by `span`, both computed by the caller in single precision; `stored`
    /// says whether the caller wrote `two_point_calibration_record` to
    /// persistent storage.
    ///
    /// Returns whether the scale factor is now in use. That is the case
    /// unless the points are less than the machine epsilon apart, the
    /// reference weight is not above zero, the scale factor is not valid, or
    /// the write failed; in each of these cases the factor in use stays what
    /// it was.
    pub fn apply_two_point_calibration(
        &mut self,
        span: Binary32,
        target_weight: Binary32,
        scale_factor: Binary32,
        stored: bool,
    ) -> (applied: bool)
        ensures
            applied == (two_point_accepted(span, target_weight, scale_factor) && stored),
            final(self)@ == if applied {
                Hx711View { calibration_factor: scale_factor, ..old(self)@ }
            } else {
                old(self)@
            },
    {
        if span.abs_lt(Binary32::from_bits(EPSILON_BITS)) {
            return false;
        }
        if target_weight.is_at_most_zero() {
            return false;
        }
        match self.update_calibration_factor(scale_factor, stored) {
            Ok(_) => true,
            Err(_) => false,
        }
    }
}

} // verus!
