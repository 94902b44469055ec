//! The telemetry snapshot: the last decoded value of every quantity the
//! decoder knows.

use vstd::prelude::*;
use crate::value::PhysicalValue;

verus! {

/// How many quantities a snapshot holds.
pub const FIELD_COUNT: usize = 62;

/// A quantity of the snapshot.
#[derive(Clone, Copy, Debug, PartialEq, Eq, Structural)]
pub enum Field {
    /// Engine load, percent.
    EngineLoad,
    /// Engine speed, revolutions per minute.
    EngineRpm,
    /// Vehicle speed, km/h.
    VehicleSpeed,
    /// Ignition timing advance, degrees before top dead centre.
    TimingAdvance,
    /// Throttle position, percent.
    ThrottlePos,
    /// Relative throttle position, percent.
    RelativeThrottlePos,
    /// Absolute throttle position B, percent.
    AbsoluteThrottlePosB,
    /// Absolute throttle position C, percent.
    AbsoluteThrottlePosC,
    /// Accelerator pedal position D, percent.
    AcceleratorPedalPosD,
    /// Accelerator pedal position E, percent.
    AcceleratorPedalPosE,
    /// Accelerator pedal position F, percent.
    AcceleratorPedalPosF,
    /// Commanded throttle actuator, percent.
    CommandedThrottleActuator,
    /// Engine coolant temperature, degrees Celsius.
    CoolantTemp,
    /// Intake air temperature, degrees Celsius.
    IntakeTemp,
    /// Ambient air temperature, degrees Celsius.
    AmbientTemp,
    /// Engine oil temperature, degrees Celsius.
    EngineOilTemp,
    /// Catalyst temperature, bank 1 sensor 1, degrees Celsius.
    CatalystTempB1S1,
    /// Catalyst temperature, bank 2 sensor 1, degrees Celsius.
    CatalystTempB2S1,
    /// Fuel pressure, kPa.
    FuelPressure,
    /// Intake manifold pressure, kPa.
    IntakePressure,
    /// Barometric pressure, kPa.
    BaroPressure,
    /// Fuel rail pressure, kPa.
    FuelRailPressure,
    /// Evaporative system vapour pressure, Pa.
    EvapSystemVaporPressure,
    /// Mass air flow, grams per second.
    MafSensor,
    /// Commanded equivalence ratio.
    CommandEquivRatio,
    /// Fuel level, percent.
    FuelLevel,
    /// Engine fuel rate, litres per hour.
    EngineFuelRate,
    /// Fuel injection timing, degrees.
    FuelInjectionTiming,
    /// Ethanol share of the fuel, percent.
    EthanolFuel,
    /// Wide-band oxygen sensor voltage, volts.
    O2Voltage,
    /// Wide-band oxygen sensor current, milliamperes.
    O2Current,
    /// Wide-band oxygen sensor lambda.
    O2Lambda,
    /// Oxygen sensor voltage, bank 1 sensor 1, volts.
    O2SensorVoltageB1S1,
    /// Oxygen sensor voltage, bank 1 sensor 2, volts.
    O2SensorVoltageB1S2,
    /// Oxygen sensor voltage, bank 1 sensor 3, volts.
    O2SensorVoltageB1S3,
    /// Oxygen sensor voltage, bank 1 sensor 4, volts.
    O2SensorVoltageB1S4,
    /// Short term fuel trim, bank 1, percent.
    FuelTrimShortB1,
    /// Long term fuel trim, bank 1, percent.
    FuelTrimLongB1,
    /// Short term fuel trim, bank 2, percent.
    FuelTrimShortB2,
    /// Long term fuel trim, bank 2, percent.
    FuelTrimLongB2,
    /// Commanded exhaust gas recirculation, percent.
    CommandedEgr,
    /// Exhaust gas recirculation error, percent.
    EgrError,
    /// Commanded evaporative purge, percent.
    CommandedEvapPurge,
    /// Control module voltage, volts.
    ControlModuleVoltage,
    /// Absolute load value, percent.
    AbsoluteLoad,
    /// Run time since engine start, seconds.
    EngineRunTime,
    /// Distance travelled with the malfunction lamp on, km.
    DistanceWithMil,
    /// Time since trouble codes were cleared, minutes.
    TimeSinceCodesCleared,
    /// Warm-ups since trouble codes were cleared.
    WarmupsSinceCodesCleared,
    /// Distance travelled since trouble codes were cleared, km.
    DistanceSinceCodesCleared,
    /// Time run with the malfunction lamp on, minutes.
    TimeWithMil,
    /// Actual exhaust gas recirculation.
    ActualEgr,
    /// Exhaust gas recirculation temperature, degrees Celsius.
    EgrTemp,
    /// Exhaust pressure.
    ExhaustPressure,
    /// Turbocharger speed, revolutions per minute.
    TurboRpm,
    /// Turbocharger temperature 1, degrees Celsius.
    TurboTemp1,
    /// Turbocharger temperature 2, degrees Celsius.
    TurboTemp2,
    /// Charge air cooler temperature, degrees Celsius.
    ChargeAirTemp,
    /// Fuel rate, milligrams per stroke.
    FuelRateMg,
    /// Actual transmission gear ratio.
    ActualGear,
    /// Diesel exhaust fluid dosing, percent.
    DefDosing,
    /// Odometer, km.
    Odometer,
}

impl Field {
    /// The position of the quantity in a snapshot.
    pub open spec fn spec_index(self) -> int {
        match self {
            Field::EngineLoad => 0,
            Field::EngineRpm => 1,
            Field::VehicleSpeed => 2,
            Field::TimingAdvance => 3,
            Field::ThrottlePos => 4,
            Field::RelativeThrottlePos => 5,
            Field::AbsoluteThrottlePosB => 6,
            Field::AbsoluteThrottlePosC => 7,
            Field::AcceleratorPedalPosD => 8,
            Field::AcceleratorPedalPosE => 9,
            Field::AcceleratorPedalPosF => 10,
            Field::CommandedThrottleActuator => 11,
            Field::CoolantTemp => 12,
            Field::IntakeTemp => 13,
            Field::AmbientTemp => 14,
            Field::EngineOilTemp => 15,
            Field::CatalystTempB1S1 => 16,
            Field::CatalystTempB2S1 => 17,
            Field::FuelPressure => 18,
            Field::IntakePressure => 19,
            Field::BaroPressure => 20,
            Field::FuelRailPressure => 21,
            Field::EvapSystemVaporPressure => 22,
            Field::MafSensor => 23,
            Field::CommandEquivRatio => 24,
            Field::FuelLevel => 25,
            Field::EngineFuelRate => 26,
            Field::FuelInjectionTiming => 27,
            Field::EthanolFuel => 28,
            Field::O2Voltage => 29,
            Field::O2Current => 30,
            Field::O2Lambda => 31,
            Field::O2SensorVoltageB1S1 => 32,
            Field::O2SensorVoltageB1S2 => 33,
            Field::O2SensorVoltageB1S3 => 34,
            Field::O2SensorVoltageB1S4 => 35,
            Field::FuelTrimShortB1 => 36,
            Field::FuelTrimLongB1 => 37,
            Field::FuelTrimShortB2 => 38,
            Field::FuelTrimLongB2 => 39,
            Field::CommandedEgr => 40,
            Field::EgrError => 41,
            Field::CommandedEvapPurge => 42,
            Field::ControlModuleVoltage => 43,
            Field::AbsoluteLoad => 44,
            Field::EngineRunTime => 45,
            Field::DistanceWithMil => 46,
            Field::TimeSinceCodesCleared => 47,
            Field::WarmupsSinceCodesCleared => 48,
            Field::DistanceSinceCodesCleared => 49,
            Field::TimeWithMil => 50,
            Field::ActualEgr => 51,
            Field::EgrTemp => 52,
            Field::ExhaustPressure => 53,
            Field::TurboRpm => 54,
            Field::TurboTemp1 => 55,
            Field::TurboTemp2 => 56,
            Field::ChargeAirTemp => 57,
            Field::FuelRateMg => 58,
            Field::ActualGear => 59,
            Field::DefDosing => 60,
            Field::Odometer => 61,
        }
    }

    /// The position of the quantity in a snapshot.
    pub fn index(self) -> (i: usize)
        ensures
            i == self.spec_index(),
            i < FIELD_COUNT,
    {
        match self {
            Field::EngineLoad => 0,
            Field::EngineRpm => 1,
            Field::VehicleSpeed => 2,
            Field::TimingAdvance => 3,
            Field::ThrottlePos => 4,
            Field::RelativeThrottlePos => 5,
            Field::AbsoluteThrottlePosB => 6,
            Field::AbsoluteThrottlePosC => 7,
            Field::AcceleratorPedalPosD => 8,
            Field::AcceleratorPedalPosE => 9,
            Field::AcceleratorPedalPosF => 10,
            Field::CommandedThrottleActuator => 11,
            Field::CoolantTemp => 12,
            Field::IntakeTemp => 13,
            Field::AmbientTemp => 14,
            Field::EngineOilTemp => 15,
            Field::CatalystTempB1S1 => 16,
            Field::CatalystTempB2S1 => 17,
            Field::FuelPressure => 18,
            Field::IntakePressure => 19,
            Field::BaroPressure => 20,
            Field::FuelRailPressure => 21,
            Field::EvapSystemVaporPressure => 22,
            Field::MafSensor => 23,
            Field::CommandEquivRatio => 24,
            Field::FuelLevel => 25,
            Field::EngineFuelRate => 26,
            Field::FuelInjectionTiming => 27,
            Field::EthanolFuel => 28,
            Field::O2Voltage => 29,
            Field::O2Current => 30,
            Field::O2Lambda => 31,
            Field::O2SensorVoltageB1S1 => 32,
            Field::O2SensorVoltageB1S2 => 33,
            Field::O2SensorVoltageB1S3 => 34,
            Field::O2SensorVoltageB1S4 => 35,
            Field::FuelTrimShortB1 => 36,
            Field::FuelTrimLongB1 => 37,
            Field::FuelTrimShortB2 => 38,
            Field::FuelTrimLongB2 => 39,
            Field::CommandedEgr => 40,
            Field::EgrError => 41,
            Field::CommandedEvapPurge => 42,
            Field::ControlModuleVoltage => 43,
            Field::AbsoluteLoad => 44,
            Field::EngineRunTime => 45,
            Field::DistanceWithMil => 46,
            Field::TimeSinceCodesCleared => 47,
            Field::WarmupsSinceCodesCleared => 48,
            Field::DistanceSinceCodesCleared => 49,
            Field::TimeWithMil => 50,
            Field::ActualEgr => 51,
            Field::EgrTemp => 52,
            Field::ExhaustPressure => 53,
            Field::TurboRpm => 54,
            Field::TurboTemp1 => 55,
            Field::TurboTemp2 => 56,
            Field::ChargeAirTemp => 57,
            Field::FuelRateMg => 58,
            Field::ActualGear => 59,
            Field::DefDosing => 60,
            Field::Odometer => 61,
        }
    }

    /// Two quantities at the same position are the same quantity.
    pub proof fn lemma_index_injective(a: Field, b: Field)
        requires
            a.spec_index() == b.spec_index(),
        ensures
            a == b,
    {
    }
}

/// The last decoded value of every quantity. A new snapshot holds the
/// integer zero everywhere; afterwards only the decoder changes it, one
/// quantity at a time.
#[derive(Debug)]
pub struct VehicleData {
    values: Vec<PhysicalValue>,
}

impl View for VehicleData {
    type V = Map<Field, PhysicalValue>;

    closed spec fn view(&self) -> Map<Field, PhysicalValue> {
        Map::new(|f: Field| true, |f: Field| self.values@[f.spec_index()])
    }
}

impl VehicleData {
    #[verifier::type_invariant]
    spec fn well_formed(self) -> bool {
        self.values@.len() == FIELD_COUNT
    }

    /// What a new snapshot holds: zero for every quantity.
    pub open spec fn initial() -> Map<Field, PhysicalValue> {
        Map::new(|f: Field| true, |f: Field| PhysicalValue::Integer(0))
    }

    /// A snapshot with every quantity at zero.
    pub fn new() -> (data: VehicleData)
        ensures
            data@ == VehicleData::initial(),
    {
        let mut values: Vec<PhysicalValue> = Vec::new();
        let mut i: usize = 0;
        while i < FIELD_COUNT
            invariant
                i <= FIELD_COUNT,
                values@.len() == i,
                forall|k: int| 0 <= k < i ==> values@[k] == PhysicalValue::Integer(0),
            decreases FIELD_COUNT - i,
        {
            values.push(PhysicalValue::Integer(0));
            i += 1;
        }
        let data = VehicleData { values };
        assert(data@ =~= VehicleData::initial());
        data
    }

    /// The value of one quantity.
    pub fn get(&self, field: Field) -> (value: PhysicalValue)
        ensures
            value == self@[field],
    {
        proof {
            use_type_invariant(self);
        }
        self.values[field.index()]
    }

    /// Replaces the value of one quantity and leaves every other one as it
    /// was.
    pub(crate) fn set(&mut self, field: Field, value: PhysicalValue)
        ensures
            final(self)@ == old(self)@.insert(field, value),
    {
        proof {
            use_type_invariant(&*self);
        }
        let i: usize = field.index();
        self.values[i] = value;
        proof {
            assert forall|f: Field| #[trigger]
                self@[f] == old(self)@.insert(field, value)[f] by {
                if f != field {
                    if f.spec_index() == field.spec_index() {
                        Field::lemma_index_injective(f, field);
                    }
                }
            }
            assert(self@ =~= old(self)@.insert(field, value));
        }
    }

    /// A copy of the snapshot, for a reader that must not see later
    /// changes.
    pub fn snapshot(&self) -> (copy: VehicleData)
        ensures
            copy@ == self@,
    {
        proof {
            use_type_invariant(self);
        }
        let mut values: Vec<PhysicalValue> = Vec::new();
        let mut i: usize = 0;
        while i < FIELD_COUNT
            invariant
                i <= FIELD_COUNT,
                self.values@.len() == FIELD_COUNT,
                values@.len() == i,
                forall|k: int| 0 <= k < i ==> values@[k] == self.values@[k],
            decreases FIELD_COUNT - i,
        {
            values.push(self.values[i]);
            i += 1;
        }
        let copy = VehicleData { values };
        assert(copy@ =~= self@);
        copy
    }

    /// Every quantity has a value in every snapshot.
    pub proof fn lemma_total(&self)
        ensures
            forall|f: Field| self@.dom().contains(f),
    {
    }
}

impl Default for VehicleData {
    fn default() -> (data: VehicleData)
        ensures
            data@ == VehicleData::initial(),
    {
        VehicleData::new()
    }
}

} // verus!
