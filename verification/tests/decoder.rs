use can_to_mqtt::obd::frame::RawFrame;
use can_to_mqtt::obd::registry::lookup;
use can_to_mqtt::obd::response::{decode_into, parse_obd_response, response_parameter};
use can_to_mqtt::value::PhysicalValue;
use can_to_mqtt::vehicle::data::{Field, VehicleData};

fn response(bytes: &[u8]) -> RawFrame {
    RawFrame { id: 0x7E8, data: bytes.to_vec() }
}

fn decoded(bytes: &[u8], field: Field) -> PhysicalValue {
    let mut data = VehicleData::new();
    parse_obd_response(&response(bytes), &mut data);
    data.get(field)
}

fn ratio(numerator: i64, denominator: i64) -> PhysicalValue {
    PhysicalValue::Ratio { numerator, denominator }
}

fn as_number(value: PhysicalValue) -> f64 {
    match value {
        PhysicalValue::Integer(n) => n as f64,
        PhysicalValue::Ratio { numerator, denominator } => numerator as f64 / denominator as f64,
    }
}

fn all_fields() -> Vec<Field> {
    vec![
        Field::EngineLoad,
        Field::EngineRpm,
        Field::VehicleSpeed,
        Field::TimingAdvance,
        Field::ThrottlePos,
        Field::RelativeThrottlePos,
        Field::AbsoluteThrottlePosB,
        Field::AbsoluteThrottlePosC,
        Field::AcceleratorPedalPosD,
        Field::AcceleratorPedalPosE,
        Field::AcceleratorPedalPosF,
        Field::CommandedThrottleActuator,
        Field::CoolantTemp,
        Field::IntakeTemp,
        Field::AmbientTemp,
        Field::EngineOilTemp,
        Field::CatalystTempB1S1,
        Field::CatalystTempB2S1,
        Field::FuelPressure,
        Field::IntakePressure,
        Field::BaroPressure,
        Field::FuelRailPressure,
        Field::EvapSystemVaporPressure,
        Field::MafSensor,
        Field::CommandEquivRatio,
        Field::FuelLevel,
        Field::EngineFuelRate,
        Field::FuelInjectionTiming,
        Field::EthanolFuel,
        Field::O2Voltage,
        Field::O2Current,
        Field::O2Lambda,
        Field::O2SensorVoltageB1S1,
        Field::O2SensorVoltageB1S2,
        Field::O2SensorVoltageB1S3,
        Field::O2SensorVoltageB1S4,
        Field::FuelTrimShortB1,
        Field::FuelTrimLongB1,
        Field::FuelTrimShortB2,
        Field::FuelTrimLongB2,
        Field::CommandedEgr,
        Field::EgrError,
        Field::CommandedEvapPurge,
        Field::ControlModuleVoltage,
        Field::AbsoluteLoad,
        Field::EngineRunTime,
        Field::DistanceWithMil,
        Field::TimeSinceCodesCleared,
        Field::WarmupsSinceCodesCleared,
        Field::DistanceSinceCodesCleared,
        Field::TimeWithMil,
        Field::ActualEgr,
        Field::EgrTemp,
        Field::ExhaustPressure,
        Field::TurboRpm,
        Field::TurboTemp1,
        Field::TurboTemp2,
        Field::ChargeAirTemp,
        Field::FuelRateMg,
        Field::ActualGear,
        Field::DefDosing,
        Field::Odometer,
    ]
}

fn unchanged(data: &VehicleData) -> bool {
    all_fields().into_iter().all(|f| data.get(f) == PhysicalValue::Integer(0))
}

#[test]
fn a_new_snapshot_is_zero_everywhere() {
    let data = VehicleData::new();
    assert_eq!(all_fields().len(), 62);
    assert!(unchanged(&data));
    assert!(unchanged(&VehicleData::default()));
}

#[test]
fn field_positions_are_distinct_and_in_range() {
    let fields = all_fields();
    for (place, field) in fields.iter().enumerate() {
        assert_eq!(field.index(), place);
    }
}

#[test]
fn engine_speed_is_a_quarter_of_the_raw_number() {
    let value = decoded(&[0x04, 0x41, 0x0C, 0x03, 0xE8], Field::EngineRpm);
    assert_eq!(value, ratio(1000, 4));
    assert_eq!(as_number(value), 250.0);
}

#[test]
fn percent_of_raw_hundred_is_thirty_nine() {
    assert_eq!(decoded(&[0x03, 0x41, 0x04, 0x64], Field::EngineLoad), PhysicalValue::Integer(39));
}

#[test]
fn percent_does_not_wrap_at_the_byte() {
    assert_eq!(decoded(&[0x03, 0x41, 0x04, 0xFF], Field::EngineLoad), PhysicalValue::Integer(100));
    assert_eq!(decoded(&[0x03, 0x41, 0x04, 0x00], Field::EngineLoad), PhysicalValue::Integer(0));
    assert_eq!(decoded(&[0x03, 0x41, 0x04, 0x03], Field::EngineLoad), PhysicalValue::Integer(1));
    assert_eq!(decoded(&[0x03, 0x41, 0x11, 0x80], Field::ThrottlePos), PhysicalValue::Integer(50));
}

#[test]
fn every_percent_parameter_uses_the_same_scale() {
    let cases: Vec<(u8, Field)> = vec![
        (0x04, Field::EngineLoad),
        (0x11, Field::ThrottlePos),
        (0x2C, Field::CommandedEgr),
        (0x2E, Field::CommandedEvapPurge),
        (0x2F, Field::FuelLevel),
        (0x45, Field::RelativeThrottlePos),
        (0x47, Field::AbsoluteThrottlePosB),
        (0x48, Field::AbsoluteThrottlePosC),
        (0x49, Field::AcceleratorPedalPosD),
        (0x4A, Field::AcceleratorPedalPosE),
        (0x4B, Field::AcceleratorPedalPosF),
        (0x4C, Field::CommandedThrottleActuator),
        (0x52, Field::EthanolFuel),
    ];
    for (id, field) in cases {
        for raw in [0u8, 1, 100, 200, 254, 255] {
            let expected = (raw as i64) * 100 / 255;
            assert_eq!(decoded(&[0x03, 0x41, id, raw], field), PhysicalValue::Integer(expected));
        }
    }
}

#[test]
fn temperatures_are_forty_below_the_raw_byte() {
    assert_eq!(decoded(&[0x03, 0x41, 0x05, 0x00], Field::CoolantTemp), PhysicalValue::Integer(-40));
    assert_eq!(decoded(&[0x03, 0x41, 0x05, 0x7B], Field::CoolantTemp), PhysicalValue::Integer(83));
    assert_eq!(decoded(&[0x03, 0x41, 0x0F, 0x28], Field::IntakeTemp), PhysicalValue::Integer(0));
    assert_eq!(decoded(&[0x03, 0x41, 0x46, 0xFF], Field::AmbientTemp), PhysicalValue::Integer(215));
    assert_eq!(decoded(&[0x03, 0x41, 0x5C, 0x27], Field::EngineOilTemp), PhysicalValue::Integer(-1));
}

#[test]
fn fuel_trims_are_fractions_around_the_middle() {
    let cases: Vec<(u8, Field)> = vec![
        (0x06, Field::FuelTrimShortB1),
        (0x07, Field::FuelTrimLongB1),
        (0x08, Field::FuelTrimShortB2),
        (0x09, Field::FuelTrimLongB2),
        (0x2D, Field::EgrError),
    ];
    for (id, field) in cases {
        assert_eq!(decoded(&[0x03, 0x41, id, 0x80], field), ratio(0, 128));
        assert_eq!(decoded(&[0x03, 0x41, id, 0x00], field), ratio(-12800, 128));
        assert_eq!(decoded(&[0x03, 0x41, id, 0xFF], field), ratio(12700, 128));
        assert_eq!(as_number(decoded(&[0x03, 0x41, id, 0x00], field)), -100.0);
        assert_eq!(as_number(decoded(&[0x03, 0x41, id, 0xC0], field)), 50.0);
    }
}

#[test]
fn one_byte_parameters_with_their_own_scale() {
    assert_eq!(decoded(&[0x03, 0x41, 0x0A, 0xFF], Field::FuelPressure), PhysicalValue::Integer(765));
    assert_eq!(decoded(&[0x03, 0x41, 0x0A, 0x64], Field::FuelPressure), PhysicalValue::Integer(300));
    assert_eq!(decoded(&[0x03, 0x41, 0x0B, 0x65], Field::IntakePressure), PhysicalValue::Integer(101));
    assert_eq!(decoded(&[0x03, 0x41, 0x0D, 0x78], Field::VehicleSpeed), PhysicalValue::Integer(120));
    assert_eq!(decoded(&[0x03, 0x41, 0x30, 0x07], Field::WarmupsSinceCodesCleared), PhysicalValue::Integer(7));
    assert_eq!(decoded(&[0x03, 0x41, 0x33, 0x63], Field::BaroPressure), PhysicalValue::Integer(99));
    assert_eq!(decoded(&[0x03, 0x41, 0x0E, 0x8C], Field::TimingAdvance), ratio(12, 2));
    assert_eq!(as_number(decoded(&[0x03, 0x41, 0x0E, 0x00], Field::TimingAdvance)), -64.0);
    assert_eq!(as_number(decoded(&[0x03, 0x41, 0x0E, 0xFF], Field::TimingAdvance)), 63.5);
    assert_eq!(decoded(&[0x03, 0x41, 0xA5, 0x03], Field::DefDosing), ratio(3, 2));
}

#[test]
fn oxygen_sensor_voltages_are_two_hundredths() {
    let cases: Vec<(u8, Field)> = vec![
        (0x14, Field::O2SensorVoltageB1S1),
        (0x15, Field::O2SensorVoltageB1S2),
        (0x16, Field::O2SensorVoltageB1S3),
        (0x17, Field::O2SensorVoltageB1S4),
    ];
    for (id, field) in cases {
        assert_eq!(decoded(&[0x03, 0x41, id, 0x5A], field), ratio(90, 200));
        assert_eq!(as_number(decoded(&[0x03, 0x41, id, 0x5A], field)), 0.45);
    }
}

#[test]
fn two_byte_parameters_join_their_bytes_high_first() {
    assert_eq!(decoded(&[0x04, 0x41, 0x0C, 0xFF, 0xFF], Field::EngineRpm), ratio(65535, 4));
    assert_eq!(decoded(&[0x04, 0x41, 0x0C, 0x00, 0x01], Field::EngineRpm), ratio(1, 4));
    assert_eq!(decoded(&[0x04, 0x41, 0x0C, 0x01, 0x00], Field::EngineRpm), ratio(256, 4));
    assert_eq!(decoded(&[0x04, 0x41, 0x10, 0x04, 0xD2], Field::MafSensor), ratio(1234, 100));
    assert_eq!(as_number(decoded(&[0x04, 0x41, 0x10, 0x04, 0xD2], Field::MafSensor)), 12.34);
    assert_eq!(decoded(&[0x04, 0x41, 0x1F, 0x01, 0x2C], Field::EngineRunTime), ratio(300, 1));
    assert_eq!(decoded(&[0x04, 0x41, 0x21, 0x12, 0x34], Field::DistanceWithMil), PhysicalValue::Integer(0x1234));
    assert_eq!(decoded(&[0x04, 0x41, 0x31, 0xFF, 0xFF], Field::DistanceSinceCodesCleared), PhysicalValue::Integer(65535));
    assert_eq!(decoded(&[0x04, 0x41, 0x4D, 0x00, 0x3C], Field::TimeWithMil), PhysicalValue::Integer(60));
    assert_eq!(decoded(&[0x04, 0x41, 0x4E, 0x02, 0x00], Field::TimeSinceCodesCleared), PhysicalValue::Integer(512));
    assert_eq!(decoded(&[0x04, 0x41, 0x42, 0x36, 0xB0], Field::ControlModuleVoltage), ratio(14000, 1000));
    assert_eq!(decoded(&[0x04, 0x41, 0x43, 0x00, 0xFF], Field::AbsoluteLoad), ratio(25500, 255));
    assert_eq!(as_number(decoded(&[0x04, 0x41, 0x43, 0x00, 0xFF], Field::AbsoluteLoad)), 100.0);
    assert_eq!(decoded(&[0x04, 0x41, 0x44, 0x80, 0x00], Field::CommandEquivRatio), ratio(32768, 32768));
    assert_eq!(decoded(&[0x04, 0x41, 0x5E, 0x00, 0xC8], Field::EngineFuelRate), ratio(200, 20));
    assert_eq!(decoded(&[0x04, 0x41, 0x73, 0x01, 0x02], Field::ExhaustPressure), PhysicalValue::Integer(258));
    assert_eq!(decoded(&[0x04, 0x41, 0xA2, 0x00, 0x40], Field::FuelRateMg), ratio(64, 32));
    assert_eq!(decoded(&[0x04, 0x41, 0xA4, 0x0B, 0xB8], Field::ActualGear), ratio(3000, 1000));
}

#[test]
fn both_rail_pressure_parameters_write_the_same_quantity() {
    assert_eq!(decoded(&[0x04, 0x41, 0x22, 0x01, 0x00], Field::FuelRailPressure), PhysicalValue::Integer(256));
    assert_eq!(decoded(&[0x04, 0x41, 0x23, 0x01, 0x00], Field::FuelRailPressure), PhysicalValue::Integer(2560));
    assert_eq!(decoded(&[0x04, 0x41, 0x23, 0xFF, 0xFF], Field::FuelRailPressure), PhysicalValue::Integer(655350));
    let mut data = VehicleData::new();
    parse_obd_response(&response(&[0x04, 0x41, 0x22, 0x00, 0x05]), &mut data);
    parse_obd_response(&response(&[0x04, 0x41, 0x23, 0x00, 0x07]), &mut data);
    assert_eq!(data.get(Field::FuelRailPressure), PhysicalValue::Integer(70));
}

#[test]
fn turbo_parameters() {
    assert_eq!(decoded(&[0x04, 0x41, 0x74, 0x27, 0x10], Field::TurboRpm), PhysicalValue::Integer(100000));
    assert_eq!(decoded(&[0x04, 0x41, 0x75, 0x00, 0x64], Field::TurboTemp1), PhysicalValue::Integer(60));
    assert_eq!(decoded(&[0x04, 0x41, 0x76, 0x00, 0x64], Field::TurboTemp2), PhysicalValue::Integer(60));
    assert_eq!(decoded(&[0x04, 0x41, 0x77, 0x00, 0x00], Field::ChargeAirTemp), PhysicalValue::Integer(-40));
    assert_eq!(decoded(&[0x04, 0x41, 0x6B, 0x01, 0x00], Field::EgrTemp), PhysicalValue::Integer(216));
}

#[test]
fn signed_temperatures_read_the_high_bit_as_a_sign() {
    assert_eq!(decoded(&[0x04, 0x41, 0x75, 0xFF, 0xFF], Field::TurboTemp1), PhysicalValue::Integer(-41));
    assert_eq!(decoded(&[0x04, 0x41, 0x6B, 0x80, 0x00], Field::EgrTemp), PhysicalValue::Integer(-32808));
    assert_eq!(decoded(&[0x04, 0x41, 0x77, 0x7F, 0xFF], Field::ChargeAirTemp), PhysicalValue::Integer(32727));
}

#[test]
fn actual_egr_takes_the_first_of_two_data_bytes() {
    assert_eq!(decoded(&[0x04, 0x41, 0x69, 0x2A, 0x99], Field::ActualEgr), PhysicalValue::Integer(42));
    let mut data = VehicleData::new();
    parse_obd_response(&response(&[0x03, 0x41, 0x69, 0x2A]), &mut data);
    assert!(unchanged(&data));
}

#[test]
fn odometer_takes_four_data_bytes() {
    assert_eq!(
        decoded(&[0x06, 0x41, 0xA6, 0x00, 0x01, 0xE2, 0x40], Field::Odometer),
        ratio(123456, 10)
    );
    assert_eq!(
        decoded(&[0x06, 0x41, 0xA6, 0xFF, 0xFF, 0xFF, 0xFF], Field::Odometer),
        ratio(4294967295, 10)
    );
    let mut data = VehicleData::new();
    parse_obd_response(&response(&[0x06, 0x41, 0xA6, 0x00, 0x01, 0xE2]), &mut data);
    assert!(unchanged(&data));
}

#[test]
fn bytes_behind_the_data_are_not_looked_at() {
    assert_eq!(
        decoded(&[0x03, 0x41, 0x0D, 0x50, 0xAA, 0xAA, 0xAA, 0xAA], Field::VehicleSpeed),
        PhysicalValue::Integer(80)
    );
    assert_eq!(
        decoded(&[0x04, 0x41, 0x0C, 0x03, 0xE8, 0xAA, 0xAA, 0xAA], Field::EngineRpm),
        ratio(1000, 4)
    );
}

#[test]
fn short_frames_change_nothing() {
    let frames: Vec<Vec<u8>> = vec![
        vec![],
        vec![0x03],
        vec![0x03, 0x41],
        vec![0x03, 0x41, 0x0D],
        vec![0x04, 0x41, 0x0C, 0x03],
        vec![0x04, 0x41, 0x10, 0x03],
        vec![0x04, 0x41, 0x21, 0xFF],
    ];
    for bytes in frames {
        let mut data = VehicleData::new();
        parse_obd_response(&response(&bytes), &mut data);
        assert!(unchanged(&data));
        parse_obd_response(&response(&[0x03, 0x41, 0x0D, 0x21]), &mut data);
        parse_obd_response(&response(&[0x04, 0x41, 0x0C, 0x00, 0x08]), &mut data);
        parse_obd_response(&response(&bytes), &mut data);
        assert_eq!(data.get(Field::VehicleSpeed), PhysicalValue::Integer(33));
        assert_eq!(data.get(Field::EngineRpm), ratio(8, 4));
        for field in all_fields() {
            if field != Field::VehicleSpeed && field != Field::EngineRpm {
                assert_eq!(data.get(field), PhysicalValue::Integer(0));
            }
        }
    }
}

#[test]
fn unknown_parameters_change_nothing() {
    for id in 0u16..=255 {
        let id = id as u8;
        if lookup(id).is_some() {
            continue;
        }
        let mut data = VehicleData::new();
        let written = decode_into(&mut data, &[0x07, 0x41, id, 1, 2, 3, 4, 5]);
        assert_eq!(written, None);
        assert!(unchanged(&data));
    }
}

#[test]
fn every_registered_parameter_writes_its_own_quantity_only() {
    let mut seen = 0;
    for id in 0u16..=255 {
        let id = id as u8;
        let spec = match lookup(id) {
            Some(spec) => spec,
            None => continue,
        };
        seen += 1;
        let mut data = VehicleData::new();
        let written = decode_into(&mut data, &[0x07, 0x41, id, 0x12, 0x34, 0x56, 0x78, 0x9A]);
        assert_eq!(written, Some(spec.field));
        let expected = spec.decode(&[0x12, 0x34, 0x56, 0x78, 0x9A]).unwrap();
        assert_eq!(data.get(spec.field), expected);
        for field in all_fields() {
            if field != spec.field {
                assert_eq!(data.get(field), PhysicalValue::Integer(0));
            }
        }
    }
    assert_eq!(seen, 56);
}

#[test]
fn decode_into_says_what_it_wrote() {
    let mut data = VehicleData::new();
    assert_eq!(decode_into(&mut data, &[0x03, 0x41, 0x0D, 0x10]), Some(Field::VehicleSpeed));
    assert_eq!(decode_into(&mut data, &[0x03, 0x41, 0x0D]), None);
    assert_eq!(decode_into(&mut data, &[0x03, 0x41, 0x01, 0x00]), None);
    assert_eq!(data.get(Field::VehicleSpeed), PhysicalValue::Integer(16));
}

#[test]
fn a_later_answer_replaces_an_earlier_one() {
    let mut data = VehicleData::new();
    parse_obd_response(&response(&[0x03, 0x41, 0x0D, 0x10]), &mut data);
    parse_obd_response(&response(&[0x03, 0x41, 0x05, 0x50]), &mut data);
    parse_obd_response(&response(&[0x03, 0x41, 0x0D, 0x20]), &mut data);
    assert_eq!(data.get(Field::VehicleSpeed), PhysicalValue::Integer(32));
    assert_eq!(data.get(Field::CoolantTemp), PhysicalValue::Integer(40));
}

#[test]
fn the_service_and_length_bytes_are_not_checked() {
    assert_eq!(decoded(&[0xFF, 0x00, 0x0D, 0x21], Field::VehicleSpeed), PhysicalValue::Integer(33));
}

#[test]
fn the_parameter_is_read_at_the_third_byte() {
    assert_eq!(response_parameter(&[0x03, 0x41, 0x0D, 0x21]), Some(0x0D));
    assert_eq!(response_parameter(&[0x03, 0x41, 0x0D]), None);
    assert_eq!(response_parameter(&[]), None);
}

#[test]
fn a_copy_of_the_snapshot_does_not_follow_later_changes() {
    let mut data = VehicleData::new();
    parse_obd_response(&response(&[0x03, 0x41, 0x0D, 0x10]), &mut data);
    let copy = data.snapshot();
    parse_obd_response(&response(&[0x03, 0x41, 0x0D, 0x20]), &mut data);
    assert_eq!(copy.get(Field::VehicleSpeed), PhysicalValue::Integer(16));
    assert_eq!(data.get(Field::VehicleSpeed), PhysicalValue::Integer(32));
}
