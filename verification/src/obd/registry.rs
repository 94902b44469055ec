//! The parameter registry: for each diagnostic parameter that is read, how
//! often it is asked for, how many data bytes its answer carries, which
//! quantity of the snapshot it feeds and how the bytes become a value.

use vstd::prelude::*;
use crate::value::PhysicalValue;
use crate::vehicle::data::Field;

verus! {

/// How often a parameter is asked for.
#[derive(Clone, Copy, Debug, PartialEq, Eq, Structural)]
pub enum Tier {
    /// Asked for in every cycle.
    HighFrequency,
    /// Asked for in one cycle of each round.
    Regular,
}

/// How the data bytes of an answer become a value. The bytes, most
/// significant first, form a number `raw`; with `signed` set, `raw` is read
/// as a two's complement number of that many bytes. The rule then takes
/// `raw * scale - bias`. An integral rule gives the whole-number quotient
/// of that by `divisor`; any other rule gives the exact fraction of the two.
#[derive(Clone, Copy, Debug, PartialEq, Eq, Structural)]
pub struct DecodeRule {
    /// Whether the bytes are a two's complement number.
    pub signed: bool,
    /// What the number is multiplied by.
    pub scale: u16,
    /// What is then taken off.
    pub bias: u16,
    /// What the result is divided by.
    pub divisor: u16,
    /// Whether the value is the whole-number quotient rather than the
    /// fraction.
    pub integral: bool,
}

/// The number of values that `width` bytes can take.
pub open spec fn span(width: nat) -> int
    decreases width,
{
    if width == 0 {
        1
    } else {
        256 * span((width - 1) as nat)
    }
}

/// The number that bytes form when the most significant comes first.
pub open spec fn big_endian(bytes: Seq<u8>) -> int
    decreases bytes.len(),
{
    if bytes.len() == 0 {
        0
    } else {
        big_endian(bytes.drop_last()) * 256 + bytes.last() as int
    }
}

impl DecodeRule {
    /// A rule divides by a positive number, and it takes a whole-number
    /// quotient only of what cannot be negative.
    pub open spec fn wf(self) -> bool {
        &&& self.divisor >= 1
        &&& (self.integral && self.divisor > 1) ==> (!self.signed && self.bias == 0)
    }

    /// The number the rule works on: `raw` itself, or what `raw` means as a
    /// two's complement number of `width` bytes.
    pub open spec fn operand(self, raw: int, width: nat) -> int {
        if self.signed && 2 * raw >= span(width) {
            raw - span(width)
        } else {
            raw
        }
    }

    /// The scaled and shifted number, before any division.
    pub open spec fn numerator(self, raw: int, width: nat) -> int {
        self.operand(raw, width) * self.scale - self.bias
    }

    /// The value the rule gives for the number `raw` formed by `width`
    /// bytes.
    pub open spec fn value(self, raw: int, width: nat) -> PhysicalValue {
        if self.integral {
            PhysicalValue::Integer((self.numerator(raw, width) / (self.divisor as int)) as i64)
        } else {
            PhysicalValue::Ratio {
                numerator: self.numerator(raw, width) as i64,
                denominator: self.divisor as i64,
            }
        }
    }

    /// The scaled and shifted number, written with the rule's scale and
    /// bias.
    pub proof fn lemma_numerator(self, raw: int, width: nat, scale: int, bias: int)
        requires
            self.scale == scale,
            self.bias == bias,
        ensures
            self.numerator(raw, width) == self.operand(raw, width) * scale - bias,
    {
    }

    /// Whatever the rule, the scaled and shifted number of at most four
    /// bytes stays far inside 64 bits.
    pub proof fn lemma_numerator_bounds(self, raw: int, width: nat)
        requires
            0 <= raw < span(width),
            width <= 4,
        ensures
            -0x1_0000_0000 < self.operand(raw, width) < 0x1_0000_0000,
            -0x1_0000_0000_0000 <= self.operand(raw, width) * self.scale <= 0x1_0000_0000_0000,
            -0x2_0000_0000_0000 <= self.numerator(raw, width) <= 0x1_0000_0000_0000,
    {
        lemma_span_values();
        let x = self.operand(raw, width);
        let s = self.scale as int;
        assert(-0x1_0000_0000 < x < 0x1_0000_0000);
        assert(-0x1_0000_0000_0000 <= x * s <= 0x1_0000_0000_0000) by (nonlinear_arith)
            requires
                -0x1_0000_0000 < x < 0x1_0000_0000,
                0 <= s < 0x1_0000,
        ;
    }
}

/// What `span` is for the widths in use.
pub proof fn lemma_span_values()
    ensures
        span(0) == 1,
        span(1) == 0x100,
        span(2) == 0x1_0000,
        span(3) == 0x100_0000,
        span(4) == 0x1_0000_0000,
{
    reveal_with_fuel(span, 5);
}

/// One byte forms its own value.
pub proof fn lemma_big_endian_one(a: u8)
    ensures
        big_endian(seq![a]) == a,
{
    reveal_with_fuel(big_endian, 2);
    assert(seq![a].drop_last() =~= Seq::<u8>::empty());
}

/// Two bytes form the high byte shifted left by eight bits, or-ed with the
/// low byte.
pub proof fn lemma_big_endian_two(high: u8, low: u8)
    ensures
        big_endian(seq![high, low]) == high * 256 + low,
        big_endian(seq![high, low]) == ((high as u16) << 8 | (low as u16)),
{
    assert(seq![high, low].drop_last() =~= seq![high]);
    lemma_big_endian_one(high);
    assert(((high as u16) << 8 | (low as u16)) == (high as u16) * 256 + (low as u16))
        by (bit_vector);
}

/// The rule that gives the whole-number quotient of `raw * scale - bias` by
/// `divisor`, with the bytes read as they are.
pub open spec fn spec_whole(scale: u16, bias: u16, divisor: u16) -> DecodeRule {
    DecodeRule { signed: false, scale, bias, divisor, integral: true }
}

/// The rule that gives the whole-number quotient of `raw * scale - bias` by
/// `divisor`, with the bytes read as they are.
#[verifier::when_used_as_spec(spec_whole)]
pub fn whole(scale: u16, bias: u16, divisor: u16) -> (rule: DecodeRule)
    ensures
        rule == spec_whole(scale, bias, divisor),
{
    DecodeRule { signed: false, scale, bias, divisor, integral: true }
}

/// The rule that gives the exact fraction of `raw * scale - bias` over
/// `divisor`, with the bytes read as they are.
pub open spec fn spec_fraction(scale: u16, bias: u16, divisor: u16) -> DecodeRule {
    DecodeRule { signed: false, scale, bias, divisor, integral: false }
}

/// The rule that gives the exact fraction of `raw * scale - bias` over
/// `divisor`, with the bytes read as they are.
#[verifier::when_used_as_spec(spec_fraction)]
pub fn fraction(scale: u16, bias: u16, divisor: u16) -> (rule: DecodeRule)
    ensures
        rule == spec_fraction(scale, bias, divisor),
{
    DecodeRule { signed: false, scale, bias, divisor, integral: false }
}

/// The bytes are the value.
pub open spec fn spec_plain() -> DecodeRule {
    spec_whole(1, 0, 1)
}

/// The bytes are the value.
#[verifier::when_used_as_spec(spec_plain)]
pub fn plain() -> (rule: DecodeRule)
    ensures
        rule == spec_plain(),
{
    whole(1, 0, 1)
}

/// A byte that runs from 0 to 255 for 0 to 100 percent: `raw * 100 / 255`.
pub open spec fn spec_percent() -> DecodeRule {
    spec_whole(100, 0, 255)
}

/// A byte that runs from 0 to 255 for 0 to 100 percent: `raw * 100 / 255`.
#[verifier::when_used_as_spec(spec_percent)]
pub fn percent() -> (rule: DecodeRule)
    ensures
        rule == spec_percent(),
{
    whole(100, 0, 255)
}

/// A temperature sent 40 degrees above its value: `raw - 40`.
pub open spec fn spec_celsius() -> DecodeRule {
    spec_whole(1, 40, 1)
}

/// A temperature sent 40 degrees above its value: `raw - 40`.
#[verifier::when_used_as_spec(spec_celsius)]
pub fn celsius() -> (rule: DecodeRule)
    ensures
        rule == spec_celsius(),
{
    whole(1, 40, 1)
}

/// A temperature sent 40 degrees above its value as a two's complement
/// number.
pub open spec fn spec_signed_celsius() -> DecodeRule {
    DecodeRule { signed: true, scale: 1, bias: 40, divisor: 1, integral: true }
}

/// A temperature sent 40 degrees above its value as a two's complement
/// number.
#[verifier::when_used_as_spec(spec_signed_celsius)]
pub fn signed_celsius() -> (rule: DecodeRule)
    ensures
        rule == spec_signed_celsius(),
{
    DecodeRule { signed: true, scale: 1, bias: 40, divisor: 1, integral: true }
}

/// A trim in percent around the middle of the byte: `(raw - 128) * 100 / 128`.
pub open spec fn spec_trim() -> DecodeRule {
    spec_fraction(100, 12800, 128)
}

/// A trim in percent around the middle of the byte: `(raw - 128) * 100 / 128`.
#[verifier::when_used_as_spec(spec_trim)]
pub fn trim() -> (rule: DecodeRule)
    ensures
        rule == spec_trim(),
{
    fraction(100, 12800, 128)
}

/// One parameter of the registry.
#[derive(Clone, Copy, Debug, PartialEq, Eq, Structural)]
pub struct ParameterSpec {
    /// The identifier that requests and answers carry.
    pub id: u8,
    /// How often the parameter is asked for.
    pub tier: Tier,
    /// How many data bytes an answer must carry.
    pub byte_width: u8,
    /// The quantity of the snapshot that an answer replaces.
    pub field: Field,
    /// How the data bytes become the value.
    pub rule: DecodeRule,
}

impl ParameterSpec {
    /// An answer carries one, two or four data bytes, and the rule is well
    /// formed.
    pub open spec fn wf(self) -> bool {
        &&& (self.byte_width == 1 || self.byte_width == 2 || self.byte_width == 4)
        &&& self.rule.wf()
    }

    /// The value that data bytes stand for: none when there are fewer than
    /// `byte_width` of them, else what the rule gives for the first
    /// `byte_width`.
    pub open spec fn decoded(self, data: Seq<u8>) -> Option<PhysicalValue> {
        if data.len() < self.byte_width {
            None
        } else {
            Some(
                self.rule.value(
                    big_endian(data.subrange(0, self.byte_width as int)),
                    self.byte_width as nat,
                ),
            )
        }
    }

    /// Turns data bytes into the parameter's value. Too few bytes give
    /// nothing; bytes beyond `byte_width` are not looked at.
    pub fn decode(&self, data: &[u8]) -> (value: Option<PhysicalValue>)
        requires
            self.wf(),
        ensures
            value == self.decoded(data@),
            value matches Some(v) ==> v.wf(),
    {
        let width: usize = self.byte_width as usize;
        if data.len() < width {
            return None;
        }
        let mut raw: u64 = 0;
        let mut reach: u64 = 1;
        let mut i: usize = 0;
        while i < width
            invariant
                i <= width <= 4,
                width <= data@.len(),
                reach == span(i as nat),
                raw == big_endian(data@.subrange(0, i as int)),
                0 <= raw < reach,
            decreases width - i,
        {
            proof {
                lemma_span_values();
                assert(data@.subrange(0, i + 1).drop_last() =~= data@.subrange(0, i as int));
            }
            raw = raw * 256 + data[i] as u64;
            reach = reach * 256;
            i += 1;
        }
        proof {
            lemma_span_values();
            self.rule.lemma_numerator_bounds(raw as int, width as nat);
        }
        let operand: i64 = if self.rule.signed && 2 * raw >= reach {
            raw as i64 - reach as i64
        } else {
            raw as i64
        };
        assert(operand == self.rule.operand(raw as int, width as nat));
        let numerator: i64 = operand * (self.rule.scale as i64) - (self.rule.bias as i64);
        assert(numerator == self.rule.numerator(raw as int, width as nat));
        if !self.rule.integral {
            Some(PhysicalValue::Ratio { numerator, denominator: self.rule.divisor as i64 })
        } else if self.rule.divisor == 1 {
            // A negative number may come here: dividing by one leaves it as it is.
            assert(numerator as int / 1 == numerator);
            Some(PhysicalValue::Integer(numerator))
        } else {
            assert(numerator >= 0) by (nonlinear_arith)
                requires
                    operand >= 0,
                    self.rule.scale >= 0,
                    numerator == operand * self.rule.scale,
            ;
            Some(PhysicalValue::Integer(numerator / (self.rule.divisor as i64)))
        }
    }
}

/// The entry of a parameter.
pub open spec fn spec_parameter(
    id: u8,
    tier: Tier,
    byte_width: u8,
    field: Field,
    rule: DecodeRule,
) -> ParameterSpec {
    ParameterSpec { id, tier, byte_width, field, rule }
}

/// The entry of a parameter.
#[verifier::when_used_as_spec(spec_parameter)]
pub fn parameter(id: u8, tier: Tier, byte_width: u8, field: Field, rule: DecodeRule) -> (spec:
    ParameterSpec)
    ensures
        spec == spec_parameter(id, tier, byte_width, field, rule),
{
    ParameterSpec { id, tier, byte_width, field, rule }
}

/// The registry: the parameter that an identifier names, if it names one.
pub open spec fn registry_entry(id: u8) -> Option<ParameterSpec> {
    match id {
        0x04 => Some(parameter(0x04, Tier::HighFrequency, 1, Field::EngineLoad, percent())),
        0x05 => Some(parameter(0x05, Tier::Regular, 1, Field::CoolantTemp, celsius())),
        0x06 => Some(parameter(0x06, Tier::Regular, 1, Field::FuelTrimShortB1, trim())),
        0x07 => Some(parameter(0x07, Tier::Regular, 1, Field::FuelTrimLongB1, trim())),
        0x08 => Some(parameter(0x08, Tier::Regular, 1, Field::FuelTrimShortB2, trim())),
        0x09 => Some(parameter(0x09, Tier::Regular, 1, Field::FuelTrimLongB2, trim())),
        0x0A => Some(parameter(0x0A, Tier::Regular, 1, Field::FuelPressure, whole(3, 0, 1))),
        0x0B => Some(parameter(0x0B, Tier::Regular, 1, Field::IntakePressure, plain())),
        0x0C => Some(parameter(0x0C, Tier::HighFrequency, 2, Field::EngineRpm, fraction(1, 0, 4))),
        0x0D => Some(parameter(0x0D, Tier::HighFrequency, 1, Field::VehicleSpeed, plain())),
        0x0E => Some(
            parameter(0x0E, Tier::HighFrequency, 1, Field::TimingAdvance, fraction(1, 128, 2)),
        ),
        0x0F => Some(parameter(0x0F, Tier::Regular, 1, Field::IntakeTemp, celsius())),
        0x10 => Some(parameter(0x10, Tier::Regular, 2, Field::MafSensor, fraction(1, 0, 100))),
        0x11 => Some(parameter(0x11, Tier::HighFrequency, 1, Field::ThrottlePos, percent())),
        0x14 => Some(
            parameter(0x14, Tier::Regular, 1, Field::O2SensorVoltageB1S1, fraction(1, 0, 200)),
        ),
        0x15 => Some(
            parameter(0x15, Tier::Regular, 1, Field::O2SensorVoltageB1S2, fraction(1, 0, 200)),
        ),
        0x16 => Some(
            parameter(0x16, Tier::Regular, 1, Field::O2SensorVoltageB1S3, fraction(1, 0, 200)),
        ),
        0x17 => Some(
            parameter(0x17, Tier::Regular, 1, Field::O2SensorVoltageB1S4, fraction(1, 0, 200)),
        ),
        0x1F => Some(parameter(0x1F, Tier::Regular, 2, Field::EngineRunTime, fraction(1, 0, 1))),
        0x21 => Some(parameter(0x21, Tier::Regular, 2, Field::DistanceWithMil, plain())),
        0x22 => Some(parameter(0x22, Tier::Regular, 2, Field::FuelRailPressure, plain())),
        0x23 => Some(parameter(0x23, Tier::Regular, 2, Field::FuelRailPressure, whole(10, 0, 1))),
        0x2C => Some(parameter(0x2C, Tier::Regular, 1, Field::CommandedEgr, percent())),
        0x2D => Some(parameter(0x2D, Tier::Regular, 1, Field::EgrError, trim())),
        0x2E => Some(parameter(0x2E, Tier::Regular, 1, Field::CommandedEvapPurge, percent())),
        0x2F => Some(parameter(0x2F, Tier::Regular, 1, Field::FuelLevel, percent())),
        0x30 => Some(parameter(0x30, Tier::Regular, 1, Field::WarmupsSinceCodesCleared, plain())),
        0x31 => Some(parameter(0x31, Tier::Regular, 2, Field::DistanceSinceCodesCleared, plain())),
        0x33 => Some(parameter(0x33, Tier::Regular, 1, Field::BaroPressure, plain())),
        0x42 => Some(
            parameter(0x42, Tier::Regular, 2, Field::ControlModuleVoltage, fraction(1, 0, 1000)),
        ),
        0x43 => Some(parameter(0x43, Tier::Regular, 2, Field::AbsoluteLoad, fraction(100, 0, 255))),
        0x44 => Some(
            parameter(0x44, Tier::Regular, 2, Field::CommandEquivRatio, fraction(1, 0, 32768)),
        ),
        0x45 => Some(parameter(0x45, Tier::Regular, 1, Field::RelativeThrottlePos, percent())),
        0x46 => Some(parameter(0x46, Tier::Regular, 1, Field::AmbientTemp, celsius())),
        0x47 => Some(parameter(0x47, Tier::Regular, 1, Field::AbsoluteThrottlePosB, percent())),
        0x48 => Some(parameter(0x48, Tier::Regular, 1, Field::AbsoluteThrottlePosC, percent())),
        0x49 => Some(parameter(0x49, Tier::Regular, 1, Field::AcceleratorPedalPosD, percent())),
        0x4A => Some(parameter(0x4A, Tier::Regular, 1, Field::AcceleratorPedalPosE, percent())),
        0x4B => Some(parameter(0x4B, Tier::Regular, 1, Field::AcceleratorPedalPosF, percent())),
        0x4C => Some(
            parameter(0x4C, Tier::Regular, 1, Field::CommandedThrottleActuator, percent()),
        ),
        0x4D => Some(parameter(0x4D, Tier::Regular, 2, Field::TimeWithMil, plain())),
        0x4E => Some(parameter(0x4E, Tier::Regular, 2, Field::TimeSinceCodesCleared, plain())),
        0x52 => Some(parameter(0x52, Tier::Regular, 1, Field::EthanolFuel, percent())),
        0x5C => Some(parameter(0x5C, Tier::Regular, 1, Field::EngineOilTemp, celsius())),
        0x5E => Some(parameter(0x5E, Tier::Regular, 2, Field::EngineFuelRate, fraction(1, 0, 20))),
        0x69 => Some(parameter(0x69, Tier::Regular, 2, Field::ActualEgr, whole(1, 0, 256))),
        0x6B => Some(parameter(0x6B, Tier::Regular, 2, Field::EgrTemp, signed_celsius())),
        0x73 => Some(parameter(0x73, Tier::Regular, 2, Field::ExhaustPressure, plain())),
        0x74 => Some(parameter(0x74, Tier::Regular, 2, Field::TurboRpm, whole(10, 0, 1))),
        0x75 => Some(parameter(0x75, Tier::Regular, 2, Field::TurboTemp1, signed_celsius())),
        0x76 => Some(parameter(0x76, Tier::Regular, 2, Field::TurboTemp2, signed_celsius())),
        0x77 => Some(parameter(0x77, Tier::Regular, 2, Field::ChargeAirTemp, signed_celsius())),
        0xA2 => Some(parameter(0xA2, Tier::Regular, 2, Field::FuelRateMg, fraction(1, 0, 32))),
        0xA4 => Some(parameter(0xA4, Tier::Regular, 2, Field::ActualGear, fraction(1, 0, 1000))),
        0xA5 => Some(parameter(0xA5, Tier::Regular, 1, Field::DefDosing, fraction(1, 0, 2))),
        0xA6 => Some(parameter(0xA6, Tier::Regular, 4, Field::Odometer, fraction(1, 0, 10))),
        _ => None,
    }
}

/// Looks an identifier up in the registry. An identifier that is not
/// registered gives nothing.
pub fn lookup(id: u8) -> (found: Option<ParameterSpec>)
    ensures
        found == registry_entry(id),
        found matches Some(spec) ==> spec.id == id && spec.wf(),
{
    match id {
        0x04 => Some(parameter(0x04, Tier::HighFrequency, 1, Field::EngineLoad, percent())),
        0x05 => Some(parameter(0x05, Tier::Regular, 1, Field::CoolantTemp, celsius())),
        0x06 => Some(parameter(0x06, Tier::Regular, 1, Field::FuelTrimShortB1, trim())),
        0x07 => Some(parameter(0x07, Tier::Regular, 1, Field::FuelTrimLongB1, trim())),
        0x08 => Some(parameter(0x08, Tier::Regular, 1, Field::FuelTrimShortB2, trim())),
        0x09 => Some(parameter(0x09, Tier::Regular, 1, Field::FuelTrimLongB2, trim())),
        0x0A => Some(parameter(0x0A, Tier::Regular, 1, Field::FuelPressure, whole(3, 0, 1))),
        0x0B => Some(parameter(0x0B, Tier::Regular, 1, Field::IntakePressure, plain())),
        0x0C => Some(parameter(0x0C, Tier::HighFrequency, 2, Field::EngineRpm, fraction(1, 0, 4))),
        0x0D => Some(parameter(0x0D, Tier::HighFrequency, 1, Field::VehicleSpeed, plain())),
        0x0E => Some(
            parameter(0x0E, Tier::HighFrequency, 1, Field::TimingAdvance, fraction(1, 128, 2)),
        ),
        0x0F => Some(parameter(0x0F, Tier::Regular, 1, Field::IntakeTemp, celsius())),
        0x10 => Some(parameter(0x10, Tier::Regular, 2, Field::MafSensor, fraction(1, 0, 100))),
        0x11 => Some(parameter(0x11, Tier::HighFrequency, 1, Field::ThrottlePos, percent())),
        0x14 => Some(
            parameter(0x14, Tier::Regular, 1, Field::O2SensorVoltageB1S1, fraction(1, 0, 200)),
        ),
        0x15 => Some(
            parameter(0x15, Tier::Regular, 1, Field::O2SensorVoltageB1S2, fraction(1, 0, 200)),
        ),
        0x16 => Some(
            parameter(0x16, Tier::Regular, 1, Field::O2SensorVoltageB1S3, fraction(1, 0, 200)),
        ),
        0x17 => Some(
            parameter(0x17, Tier::Regular, 1, Field::O2SensorVoltageB1S4, fraction(1, 0, 200)),
        ),
        0x1F => Some(parameter(0x1F, Tier::Regular, 2, Field::EngineRunTime, fraction(1, 0, 1))),
        0x21 => Some(parameter(0x21, Tier::Regular, 2, Field::DistanceWithMil, plain())),
        0x22 => Some(parameter(0x22, Tier::Regular, 2, Field::FuelRailPressure, plain())),
        0x23 => Some(parameter(0x23, Tier::Regular, 2, Field::FuelRailPressure, whole(10, 0, 1))),
        0x2C => Some(parameter(0x2C, Tier::Regular, 1, Field::CommandedEgr, percent())),
        0x2D => Some(parameter(0x2D, Tier::Regular, 1, Field::EgrError, trim())),
        0x2E => Some(parameter(0x2E, Tier::Regular, 1, Field::CommandedEvapPurge, percent())),
        0x2F => Some(parameter(0x2F, Tier::Regular, 1, Field::FuelLevel, percent())),
        0x30 => Some(parameter(0x30, Tier::Regular, 1, Field::WarmupsSinceCodesCleared, plain())),
        0x31 => Some(parameter(0x31, Tier::Regular, 2, Field::DistanceSinceCodesCleared, plain())),
        0x33 => Some(parameter(0x33, Tier::Regular, 1, Field::BaroPressure, plain())),
        0x42 => Some(
            parameter(0x42, Tier::Regular, 2, Field::ControlModuleVoltage, fraction(1, 0, 1000)),
        ),
        0x43 => Some(parameter(0x43, Tier::Regular, 2, Field::AbsoluteLoad, fraction(100, 0, 255))),
        0x44 => Some(
            parameter(0x44, Tier::Regular, 2, Field::CommandEquivRatio, fraction(1, 0, 32768)),
        ),
        0x45 => Some(parameter(0x45, Tier::Regular, 1, Field::RelativeThrottlePos, percent())),
        0x46 => Some(parameter(0x46, Tier::Regular, 1, Field::AmbientTemp, celsius())),
        0x47 => Some(parameter(0x47, Tier::Regular, 1, Field::AbsoluteThrottlePosB, percent())),
        0x48 => Some(parameter(0x48, Tier::Regular, 1, Field::AbsoluteThrottlePosC, percent())),
        0x49 => Some(parameter(0x49, Tier::Regular, 1, Field::AcceleratorPedalPosD, percent())),
        0x4A => Some(parameter(0x4A, Tier::Regular, 1, Field::AcceleratorPedalPosE, percent())),
        0x4B => Some(parameter(0x4B, Tier::Regular, 1, Field::AcceleratorPedalPosF, percent())),
        0x4C => Some(
            parameter(0x4C, Tier::Regular, 1, Field::CommandedThrottleActuator, percent()),
        ),
        0x4D => Some(parameter(0x4D, Tier::Regular, 2, Field::TimeWithMil, plain())),
        0x4E => Some(parameter(0x4E, Tier::Regular, 2, Field::TimeSinceCodesCleared, plain())),
        0x52 => Some(parameter(0x52, Tier::Regular, 1, Field::EthanolFuel, percent())),
        0x5C => Some(parameter(0x5C, Tier::Regular, 1, Field::EngineOilTemp, celsius())),
        0x5E => Some(parameter(0x5E, Tier::Regular, 2, Field::EngineFuelRate, fraction(1, 0, 20))),
        0x69 => Some(parameter(0x69, Tier::Regular, 2, Field::ActualEgr, whole(1, 0, 256))),
        0x6B => Some(parameter(0x6B, Tier::Regular, 2, Field::EgrTemp, signed_celsius())),
        0x73 => Some(parameter(0x73, Tier::Regular, 2, Field::ExhaustPressure, plain())),
        0x74 => Some(parameter(0x74, Tier::Regular, 2, Field::TurboRpm, whole(10, 0, 1))),
        0x75 => Some(parameter(0x75, Tier::Regular, 2, Field::TurboTemp1, signed_celsius())),
        0x76 => Some(parameter(0x76, Tier::Regular, 2, Field::TurboTemp2, signed_celsius())),
        0x77 => Some(parameter(0x77, Tier::Regular, 2, Field::ChargeAirTemp, signed_celsius())),
        0xA2 => Some(parameter(0xA2, Tier::Regular, 2, Field::FuelRateMg, fraction(1, 0, 32))),
        0xA4 => Some(parameter(0xA4, Tier::Regular, 2, Field::ActualGear, fraction(1, 0, 1000))),
        0xA5 => Some(parameter(0xA5, Tier::Regular, 1, Field::DefDosing, fraction(1, 0, 2))),
        0xA6 => Some(parameter(0xA6, Tier::Regular, 4, Field::Odometer, fraction(1, 0, 10))),
        _ => None,
    }
}

/// Every entry of the registry stands under its own identifier, so that no
/// identifier names two parameters, and every entry is well formed.
pub proof fn lemma_registry_sound(id: u8)
    ensures
        registry_entry(id) matches Some(spec) ==> spec.id == id && spec.wf(),
{
}

/// The parameters asked for in every cycle, in the order in which they are
/// asked for: engine speed first.
pub open spec fn high_frequency() -> Seq<u8> {
    seq![0x0Cu8, 0x0Du8, 0x04u8, 0x0Eu8, 0x11u8]
}

/// The identifiers below `bound` that are registered in `tier`, in rising
/// order.
pub open spec fn tier_below(tier: Tier, bound: nat) -> Seq<u8>
    decreases bound,
{
    if bound == 0 {
        Seq::empty()
    } else {
        let id = (bound - 1) as u8;
        let rest = tier_below(tier, (bound - 1) as nat);
        match registry_entry(id) {
            Some(spec) => if spec.tier == tier {
                rest.push(id)
            } else {
                rest
            },
            None => rest,
        }
    }
}

/// The parameters asked for in one cycle of each round, in rising order.
pub open spec fn regular() -> Seq<u8> {
    tier_below(Tier::Regular, 256)
}

/// The parameters of a tier, in the order in which they are asked for.
pub open spec fn tier_ids(tier: Tier) -> Seq<u8> {
    match tier {
        Tier::HighFrequency => high_frequency(),
        Tier::Regular => regular(),
    }
}

/// `tier_below` holds exactly the identifiers under the bound that are
/// registered in the tier, each once and in rising order.
pub proof fn lemma_tier_below(tier: Tier, bound: nat)
    requires
        bound <= 256,
    ensures
        forall|id: u8|
            tier_below(tier, bound).contains(id) <==> (id < bound && (registry_entry(
                id,
            ) matches Some(spec) && spec.tier == tier)),
        forall|i: int, j: int|
            0 <= i < j < tier_below(tier, bound).len() ==> tier_below(tier, bound)[i]
                < tier_below(tier, bound)[j],
        forall|i: int| 0 <= i < tier_below(tier, bound).len() ==> tier_below(tier, bound)[i] < bound,
        tier_below(tier, bound).len() <= bound,
    decreases bound,
{
    if bound > 0 {
        lemma_tier_below(tier, (bound - 1) as nat);
        let id = (bound - 1) as u8;
        let rest = tier_below(tier, (bound - 1) as nat);
        let all = tier_below(tier, bound);
        let taken = registry_entry(id) matches Some(spec) && spec.tier == tier;
        if taken {
            assert(all == rest.push(id));
            assert(all[rest.len() as int] == id);
            assert forall|other: u8| all.contains(other) <==> (other < bound && (registry_entry(
                other,
            ) matches Some(spec) && spec.tier == tier)) by {
                if all.contains(other) {
                    let k = choose|k: int| 0 <= k < all.len() && all[k] == other;
                    if k < rest.len() {
                        assert(rest[k] == other);
                        assert(rest.contains(other));
                    }
                }
                if other < bound && (registry_entry(other) matches Some(spec) && spec.tier
                    == tier) {
                    if other == id {
                        assert(all[rest.len() as int] == other);
                    } else {
                        assert(rest.contains(other));
                        let k = choose|k: int| 0 <= k < rest.len() && rest[k] == other;
                        assert(all[k] == other);
                    }
                }
            }
        } else {
            assert(all == rest);
        }
    }
}

/// Every registered parameter is asked for in exactly one tier: it stands
/// in the list of its own tier, once, and not in the other list.
pub proof fn lemma_tiers_partition(id: u8)
    ensures
        high_frequency().contains(id) <==> (registry_entry(id) matches Some(spec) && spec.tier
            == Tier::HighFrequency),
        regular().contains(id) <==> (registry_entry(id) matches Some(spec) && spec.tier
            == Tier::Regular),
        !(high_frequency().contains(id) && regular().contains(id)),
        high_frequency().no_duplicates(),
        regular().no_duplicates(),
{
    lemma_tier_below(Tier::Regular, 256);
    let high = high_frequency();
    assert(high[0] == 0x0C && high[1] == 0x0D && high[2] == 0x04 && high[3] == 0x0E && high[4]
        == 0x11);
}

/// The parameters asked for in every cycle.
pub fn high_frequency_ids() -> (ids: Vec<u8>)
    ensures
        ids@ == high_frequency(),
{
    let mut ids: Vec<u8> = Vec::new();
    ids.push(0x0C);
    ids.push(0x0D);
    ids.push(0x04);
    ids.push(0x0E);
    ids.push(0x11);
    assert(ids@ =~= high_frequency());
    ids
}

/// The parameters asked for in one cycle of each round.
pub fn regular_ids() -> (ids: Vec<u8>)
    ensures
        ids@ == regular(),
{
    let mut ids: Vec<u8> = Vec::new();
    let mut next: u16 = 0;
    while next < 256
        invariant
            next <= 256,
            ids@ == tier_below(Tier::Regular, next as nat),
        decreases 256 - next,
    {
        let id: u8 = next as u8;
        match lookup(id) {
            Some(spec) => {
                if spec.tier == Tier::Regular {
                    ids.push(id);
                }
            },
            None => {},
        }
        next += 1;
    }
    ids
}

} // verus!
