//! What is published: each value of the snapshot that goes to the message
//! bus, with the topic it goes to.
//!
//! Publishing itself, and writing a value as text, are the caller's. The
//! caller asks the change gate about each text in the order given here and
//! sends those that pass.

use vstd::prelude::*;
use vstd::string::StringExecFns;
use crate::config::AppConfig;
use crate::value::PhysicalValue;
use crate::vehicle::data::{Field, VehicleData};

verus! {

/// How many values are published.
pub const PUBLISHED_COUNT: usize = 37;

/// One value to publish.
#[derive(Debug)]
pub struct Publication {
    /// The topic: the base topic, a slash and the quantity's short name.
    pub topic: String,
    /// The quantity.
    pub field: Field,
    /// Its value in the snapshot.
    pub value: PhysicalValue,
}

/// The short name and the quantity of the value published at place
/// `index`.
pub open spec fn published(index: usize) -> (&'static str, Field) {
    match index {
        0 => ("RPM", Field::EngineRpm),
        1 => ("TPS", Field::ThrottlePos),
        2 => ("MAP", Field::IntakePressure),
        3 => ("MAT", Field::IntakeTemp),
        4 => ("CLT", Field::CoolantTemp),
        5 => ("BAT", Field::ControlModuleVoltage),
        6 => ("BAR", Field::BaroPressure),
        7 => ("VSS", Field::VehicleSpeed),
        8 => ("GER", Field::ActualGear),
        9 => ("ELD", Field::EngineLoad),
        10 => ("FST", Field::FuelTrimShortB1),
        11 => ("FLT", Field::FuelTrimLongB1),
        12 => ("FS2", Field::FuelTrimShortB2),
        13 => ("FL2", Field::FuelTrimLongB2),
        14 => ("FPR", Field::FuelPressure),
        15 => ("TAD", Field::TimingAdvance),
        16 => ("MAS", Field::MafSensor),
        17 => ("O21", Field::O2SensorVoltageB1S1),
        18 => ("O22", Field::O2SensorVoltageB1S2),
        19 => ("O23", Field::O2SensorVoltageB1S3),
        20 => ("O24", Field::O2SensorVoltageB1S4),
        21 => ("ERT", Field::EngineRunTime),
        22 => ("MIL", Field::DistanceWithMil),
        23 => ("FRL", Field::FuelRailPressure),
        24 => ("EGR", Field::CommandedEgr),
        25 => ("EGE", Field::EgrError),
        26 => ("EGT", Field::EgrTemp),
        27 => ("TBR", Field::TurboRpm),
        28 => ("TB1", Field::TurboTemp1),
        29 => ("TB2", Field::TurboTemp2),
        30 => ("CAT", Field::ChargeAirTemp),
        31 => ("ETH", Field::EthanolFuel),
        32 => ("OIT", Field::EngineOilTemp),
        33 => ("FRT", Field::EngineFuelRate),
        34 => ("FRM", Field::FuelRateMg),
        35 => ("DEF", Field::DefDosing),
        _ => ("ODO", Field::Odometer),
    }
}

/// The topic of the value published at place `index` under a base topic.
pub open spec fn topic_of(base: Seq<char>, index: usize) -> Seq<char> {
    base + "/"@ + published(index).0@
}

fn published_at(index: usize) -> (entry: (&'static str, Field))
    ensures
        entry == published(index),
{
    match index {
        0 => ("RPM", Field::EngineRpm),
        1 => ("TPS", Field::ThrottlePos),
        2 => ("MAP", Field::IntakePressure),
        3 => ("MAT", Field::IntakeTemp),
        4 => ("CLT", Field::CoolantTemp),
        5 => ("BAT", Field::ControlModuleVoltage),
        6 => ("BAR", Field::BaroPressure),
        7 => ("VSS", Field::VehicleSpeed),
        8 => ("GER", Field::ActualGear),
        9 => ("ELD", Field::EngineLoad),
        10 => ("FST", Field::FuelTrimShortB1),
        11 => ("FLT", Field::FuelTrimLongB1),
        12 => ("FS2", Field::FuelTrimShortB2),
        13 => ("FL2", Field::FuelTrimLongB2),
        14 => ("FPR", Field::FuelPressure),
        15 => ("TAD", Field::TimingAdvance),
        16 => ("MAS", Field::MafSensor),
        17 => ("O21", Field::O2SensorVoltageB1S1),
        18 => ("O22", Field::O2SensorVoltageB1S2),
        19 => ("O23", Field::O2SensorVoltageB1S3),
        20 => ("O24", Field::O2SensorVoltageB1S4),
        21 => ("ERT", Field::EngineRunTime),
        22 => ("MIL", Field::DistanceWithMil),
        23 => ("FRL", Field::FuelRailPressure),
        24 => ("EGR", Field::CommandedEgr),
        25 => ("EGE", Field::EgrError),
        26 => ("EGT", Field::EgrTemp),
        27 => ("TBR", Field::TurboRpm),
        28 => ("TB1", Field::TurboTemp1),
        29 => ("TB2", Field::TurboTemp2),
        30 => ("CAT", Field::ChargeAirTemp),
        31 => ("ETH", Field::EthanolFuel),
        32 => ("OIT", Field::EngineOilTemp),
        33 => ("FRT", Field::EngineFuelRate),
        34 => ("FRM", Field::FuelRateMg),
        35 => ("DEF", Field::DefDosing),
        _ => ("ODO", Field::Odometer),
    }
}

/// Lists what to publish of a snapshot, in the order of publishing: for
/// each published quantity its topic under the configured base topic and
/// its value.
pub fn publish_vehicle_data(data: &VehicleData, config: &AppConfig) -> (list: Vec<Publication>)
    ensures
        list@.len() == PUBLISHED_COUNT,
        forall|i: int|
            0 <= i < PUBLISHED_COUNT ==> {
                &&& (#[trigger] list@[i]).topic@ == topic_of(config.mqtt_base_topic@, i as usize)
                &&& list@[i].field == published(i as usize).1
                &&& list@[i].value == data@[published(i as usize).1]
            },
{
    let mut list: Vec<Publication> = Vec::new();
    let mut index: usize = 0;
    while index < PUBLISHED_COUNT
        invariant
            index <= PUBLISHED_COUNT,
            list@.len() == index,
            forall|i: int|
                0 <= i < index ==> {
                    &&& (#[trigger] list@[i]).topic@ == topic_of(config.mqtt_base_topic@, i as usize)
                    &&& list@[i].field == published(i as usize).1
                    &&& list@[i].value == data@[published(i as usize).1]
                },
        decreases PUBLISHED_COUNT - index,
    {
        let entry = published_at(index);
        let topic: String = String::from_str(config.mqtt_base_topic.as_str()).concat("/").concat(
            entry.0,
        );
        list.push(Publication { topic, field: entry.1, value: data.get(entry.1) });
        index += 1;
    }
    list
}

} // verus!
