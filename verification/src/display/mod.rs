//! Showing the snapshot as a table: which quantities are shown, under
//! which name, with how many decimals and in which unit.
//!
//! Writing a value as text and printing are the caller's:
//! [`display_values`] says what to write, and [`display_vehicle_data`]
//! makes the table from the texts, unless one of them holds the escape
//! character.

pub mod table;

use vstd::prelude::*;
use crate::display::table::{
    cell_lines, free_of_escape, is_free_of_escape, one_line, single_line, VehicleTable,
};
use crate::value::PhysicalValue;
use crate::vehicle::data::{Field, VehicleData};

verus! {

/// How many quantities are shown.
pub const DISPLAY_ROWS: usize = 42;

/// One line of what is shown.
#[derive(Clone, Copy, Debug)]
pub struct DisplayRow {
    /// The name shown for the quantity.
    pub label: &'static str,
    /// The quantity.
    pub field: Field,
    /// The number of decimals of a fraction; none for a whole number.
    pub decimals: Option<u8>,
    /// The unit shown.
    pub unit: &'static str,
}

/// A value to write as text, with the number of decimals to write it with.
#[derive(Clone, Copy, Debug)]
pub struct DisplayValue {
    /// The value.
    pub value: PhysicalValue,
    /// The number of decimals of a fraction; none for a whole number.
    pub decimals: Option<u8>,
}

/// A line of what is shown.
pub open spec fn spec_row(
    label: &'static str,
    field: Field,
    decimals: Option<u8>,
    unit: &'static str,
) -> DisplayRow {
    DisplayRow { label, field, decimals, unit }
}

/// A line of what is shown.
#[verifier::when_used_as_spec(spec_row)]
pub fn row(label: &'static str, field: Field, decimals: Option<u8>, unit: &'static str) -> (line:
    DisplayRow)
    ensures
        line == spec_row(label, field, decimals, unit),
{
    DisplayRow { label, field, decimals, unit }
}

/// The line shown at place `index`.
pub open spec fn display_row(index: usize) -> DisplayRow {
    match index {
        0 => row("Engine Load", Field::EngineLoad, None, "%"),
        1 => row("Engine RPM", Field::EngineRpm, Some(0), "RPM"),
        2 => row("Vehicle Speed", Field::VehicleSpeed, None, "km/h"),
        3 => row("Timing Advance", Field::TimingAdvance, Some(1), "°"),
        4 => row("Throttle Position", Field::ThrottlePos, None, "%"),
        5 => row("Relative Throttle Pos", Field::RelativeThrottlePos, None, "%"),
        6 => row("Absolute Throttle Pos B", Field::AbsoluteThrottlePosB, None, "%"),
        7 => row("Absolute Throttle Pos C", Field::AbsoluteThrottlePosC, None, "%"),
        8 => row("Accelerator Pedal Pos D", Field::AcceleratorPedalPosD, None, "%"),
        9 => row("Accelerator Pedal Pos E", Field::AcceleratorPedalPosE, None, "%"),
        10 => row("Accelerator Pedal Pos F", Field::AcceleratorPedalPosF, None, "%"),
        11 => row("Coolant Temp", Field::CoolantTemp, None, "°C"),
        12 => row("Intake Temperature", Field::IntakeTemp, None, "°C"),
        13 => row("Ambient Temperature", Field::AmbientTemp, None, "°C"),
        14 => row("Engine Oil Temp", Field::EngineOilTemp, None, "°C"),
        15 => row("Catalyst Temp B1S1", Field::CatalystTempB1S1, Some(1), "°C"),
        16 => row("Catalyst Temp B2S1", Field::CatalystTempB2S1, Some(1), "°C"),
        17 => row("Fuel Pressure", Field::FuelPressure, None, "kPa"),
        18 => row("Intake Pressure", Field::IntakePressure, None, "kPa"),
        19 => row("Barometric Pressure", Field::BaroPressure, None, "kPa"),
        20 => row("Fuel Rail Pressure", Field::FuelRailPressure, None, "kPa"),
        21 => row("Evap System Vapor Pressure", Field::EvapSystemVaporPressure, Some(1), "Pa"),
        22 => row("MAF Rate", Field::MafSensor, Some(2), "g/s"),
        23 => row("Commanded AFR", Field::CommandEquivRatio, Some(3), "λ"),
        24 => row("Fuel Level", Field::FuelLevel, None, "%"),
        25 => row("Engine Fuel Rate", Field::EngineFuelRate, Some(2), "L/h"),
        26 => row("Fuel Injection Timing", Field::FuelInjectionTiming, Some(2), "°"),
        27 => row("O2 Sensor Voltage B1S1", Field::O2Voltage, Some(3), "V"),
        28 => row("O2 Sensor Current B1S1", Field::O2Current, Some(3), "mA"),
        29 => row("O2 Sensor Lambda B1S1", Field::O2Lambda, Some(3), "λ"),
        30 => row("ST Fuel Trim B1", Field::FuelTrimShortB1, Some(1), "%"),
        31 => row("LT Fuel Trim B1", Field::FuelTrimLongB1, Some(1), "%"),
        32 => row("ST Fuel Trim B2", Field::FuelTrimShortB2, Some(1), "%"),
        33 => row("LT Fuel Trim B2", Field::FuelTrimLongB2, Some(1), "%"),
        34 => row("Commanded EGR", Field::CommandedEgr, None, "%"),
        35 => row("EGR Error", Field::EgrError, Some(1), "%"),
        36 => row("Evap Purge", Field::CommandedEvapPurge, None, "%"),
        37 => row("Module Voltage", Field::ControlModuleVoltage, Some(1), "V"),
        38 => row("Absolute Load Value", Field::AbsoluteLoad, Some(1), "%"),
        39 => row("Engine Run Time", Field::EngineRunTime, Some(0), "s"),
        40 => row("Distance with MIL on", Field::DistanceWithMil, None, "km"),
        _ => row("Time Since Codes Cleared", Field::TimeSinceCodesCleared, None, "min"),
    }
}

/// The line shown at place `index`; past the last place, the last line.
pub fn display_row_at(index: usize) -> (row: DisplayRow)
    ensures
        row == display_row(index),
{
    match index {
        0 => row("Engine Load", Field::EngineLoad, None, "%"),
        1 => row("Engine RPM", Field::EngineRpm, Some(0), "RPM"),
        2 => row("Vehicle Speed", Field::VehicleSpeed, None, "km/h"),
        3 => row("Timing Advance", Field::TimingAdvance, Some(1), "°"),
        4 => row("Throttle Position", Field::ThrottlePos, None, "%"),
        5 => row("Relative Throttle Pos", Field::RelativeThrottlePos, None, "%"),
        6 => row("Absolute Throttle Pos B", Field::AbsoluteThrottlePosB, None, "%"),
        7 => row("Absolute Throttle Pos C", Field::AbsoluteThrottlePosC, None, "%"),
        8 => row("Accelerator Pedal Pos D", Field::AcceleratorPedalPosD, None, "%"),
        9 => row("Accelerator Pedal Pos E", Field::AcceleratorPedalPosE, None, "%"),
        10 => row("Accelerator Pedal Pos F", Field::AcceleratorPedalPosF, None, "%"),
        11 => row("Coolant Temp", Field::CoolantTemp, None, "°C"),
        12 => row("Intake Temperature", Field::IntakeTemp, None, "°C"),
        13 => row("Ambient Temperature", Field::AmbientTemp, None, "°C"),
        14 => row("Engine Oil Temp", Field::EngineOilTemp, None, "°C"),
        15 => row("Catalyst Temp B1S1", Field::CatalystTempB1S1, Some(1), "°C"),
        16 => row("Catalyst Temp B2S1", Field::CatalystTempB2S1, Some(1), "°C"),
        17 => row("Fuel Pressure", Field::FuelPressure, None, "kPa"),
        18 => row("Intake Pressure", Field::IntakePressure, None, "kPa"),
        19 => row("Barometric Pressure", Field::BaroPressure, None, "kPa"),
        20 => row("Fuel Rail Pressure", Field::FuelRailPressure, None, "kPa"),
        21 => row("Evap System Vapor Pressure", Field::EvapSystemVaporPressure, Some(1), "Pa"),
        22 => row("MAF Rate", Field::MafSensor, Some(2), "g/s"),
        23 => row("Commanded AFR", Field::CommandEquivRatio, Some(3), "λ"),
        24 => row("Fuel Level", Field::FuelLevel, None, "%"),
        25 => row("Engine Fuel Rate", Field::EngineFuelRate, Some(2), "L/h"),
        26 => row("Fuel Injection Timing", Field::FuelInjectionTiming, Some(2), "°"),
        27 => row("O2 Sensor Voltage B1S1", Field::O2Voltage, Some(3), "V"),
        28 => row("O2 Sensor Current B1S1", Field::O2Current, Some(3), "mA"),
        29 => row("O2 Sensor Lambda B1S1", Field::O2Lambda, Some(3), "λ"),
        30 => row("ST Fuel Trim B1", Field::FuelTrimShortB1, Some(1), "%"),
        31 => row("LT Fuel Trim B1", Field::FuelTrimLongB1, Some(1), "%"),
        32 => row("ST Fuel Trim B2", Field::FuelTrimShortB2, Some(1), "%"),
        33 => row("LT Fuel Trim B2", Field::FuelTrimLongB2, Some(1), "%"),
        34 => row("Commanded EGR", Field::CommandedEgr, None, "%"),
        35 => row("EGR Error", Field::EgrError, Some(1), "%"),
        36 => row("Evap Purge", Field::CommandedEvapPurge, None, "%"),
        37 => row("Module Voltage", Field::ControlModuleVoltage, Some(1), "V"),
        38 => row("Absolute Load Value", Field::AbsoluteLoad, Some(1), "%"),
        39 => row("Engine Run Time", Field::EngineRunTime, Some(0), "s"),
        40 => row("Distance with MIL on", Field::DistanceWithMil, None, "km"),
        _ => row("Time Since Codes Cleared", Field::TimeSinceCodesCleared, None, "min"),
    }
}

/// The values of a snapshot that are shown, in the order of the lines.
pub fn display_values(vehicle_data: &VehicleData) -> (values: Vec<DisplayValue>)
    ensures
        values@.len() == DISPLAY_ROWS,
        forall|i: int|
            0 <= i < DISPLAY_ROWS ==> {
                &&& (#[trigger] values@[i]).value == vehicle_data@[display_row(i as usize).field]
                &&& values@[i].decimals == display_row(i as usize).decimals
            },
{
    let mut values: Vec<DisplayValue> = Vec::new();
    let mut index: usize = 0;
    while index < DISPLAY_ROWS
        invariant
            index <= DISPLAY_ROWS,
            values@.len() == index,
            forall|i: int|
                0 <= i < index ==> {
                    &&& (#[trigger] values@[i]).value == vehicle_data@[display_row(
                        i as usize,
                    ).field]
                    &&& values@[i].decimals == display_row(i as usize).decimals
                },
        decreases DISPLAY_ROWS - index,
    {
        let row = display_row_at(index);
        values.push(DisplayValue { value: vehicle_data.get(row.field), decimals: row.decimals });
        index += 1;
    }
    values
}

/// The name and the unit of every line are plain texts: they hold neither
/// the escape character nor a line end.
pub proof fn lemma_lines_are_plain(index: usize)
    ensures
        free_of_escape(display_row(index).label@),
        single_line(display_row(index).label@),
        free_of_escape(display_row(index).unit@),
        single_line(display_row(index).unit@),
{
    reveal_strlit("Engine Load");
    reveal_strlit("Engine RPM");
    reveal_strlit("Vehicle Speed");
    reveal_strlit("Timing Advance");
    reveal_strlit("Throttle Position");
    reveal_strlit("Relative Throttle Pos");
    reveal_strlit("Absolute Throttle Pos B");
    reveal_strlit("Absolute Throttle Pos C");
    reveal_strlit("Accelerator Pedal Pos D");
    reveal_strlit("Accelerator Pedal Pos E");
    reveal_strlit("Accelerator Pedal Pos F");
    reveal_strlit("Coolant Temp");
    reveal_strlit("Intake Temperature");
    reveal_strlit("Ambient Temperature");
    reveal_strlit("Engine Oil Temp");
    reveal_strlit("Catalyst Temp B1S1");
    reveal_strlit("Catalyst Temp B2S1");
    reveal_strlit("Fuel Pressure");
    reveal_strlit("Intake Pressure");
    reveal_strlit("Barometric Pressure");
    reveal_strlit("Fuel Rail Pressure");
    reveal_strlit("Evap System Vapor Pressure");
    reveal_strlit("MAF Rate");
    reveal_strlit("Commanded AFR");
    reveal_strlit("Fuel Level");
    reveal_strlit("Engine Fuel Rate");
    reveal_strlit("Fuel Injection Timing");
    reveal_strlit("O2 Sensor Voltage B1S1");
    reveal_strlit("O2 Sensor Current B1S1");
    reveal_strlit("O2 Sensor Lambda B1S1");
    reveal_strlit("ST Fuel Trim B1");
    reveal_strlit("LT Fuel Trim B1");
    reveal_strlit("ST Fuel Trim B2");
    reveal_strlit("LT Fuel Trim B2");
    reveal_strlit("Commanded EGR");
    reveal_strlit("EGR Error");
    reveal_strlit("Evap Purge");
    reveal_strlit("Module Voltage");
    reveal_strlit("Absolute Load Value");
    reveal_strlit("Engine Run Time");
    reveal_strlit("Distance with MIL on");
    reveal_strlit("Time Since Codes Cleared");
    reveal_strlit("%");
    reveal_strlit("RPM");
    reveal_strlit("km/h");
    reveal_strlit("°");
    reveal_strlit("°C");
    reveal_strlit("kPa");
    reveal_strlit("Pa");
    reveal_strlit("g/s");
    reveal_strlit("λ");
    reveal_strlit("L/h");
    reveal_strlit("V");
    reveal_strlit("mA");
    reveal_strlit("s");
    reveal_strlit("km");
    reveal_strlit("min");
}

/// So are the three texts of the heading.
pub proof fn lemma_heading_is_plain()
    ensures
        free_of_escape("Parameter"@),
        single_line("Parameter"@),
        free_of_escape("Value"@),
        single_line("Value"@),
        free_of_escape("Unit"@),
        single_line("Unit"@),
{
    reveal_strlit("Parameter");
    reveal_strlit("Value");
    reveal_strlit("Unit");
}

/// The row of a table for the line at place `index`, with `text` as the
/// value: the name and the unit as they are, the value line by line.
pub open spec fn shown_row(index: usize, text: Seq<char>) -> Seq<Seq<Seq<char>>> {
    seq![
        one_line(display_row(index).label@),
        cell_lines(text),
        one_line(display_row(index).unit@),
    ]
}

/// The heading of the table.
pub open spec fn heading() -> Seq<Seq<Seq<char>>> {
    seq![one_line("Parameter"@), one_line("Value"@), one_line("Unit"@)]
}

/// The rows of the table for the first `count` texts: the heading, then
/// one row for each text.
pub open spec fn shown_rows(texts: Seq<Seq<char>>, count: nat) -> Seq<Seq<Seq<Seq<char>>>>
    decreases count,
{
    if count == 0 {
        seq![heading()]
    } else {
        shown_rows(texts, (count - 1) as nat).push(
            shown_row((count - 1) as usize, texts[count - 1]),
        )
    }
}

/// Whether a table can be made of the texts: there is one for each line,
/// and none holds the escape character.
pub open spec fn showable(texts: Seq<Seq<char>>) -> bool {
    &&& texts.len() == DISPLAY_ROWS
    &&& forall|i: int| 0 <= i < texts.len() ==> free_of_escape(#[trigger] texts[i])
}

/// Looks through the texts for what keeps them out of a table.
pub fn are_showable(texts: &Vec<String>) -> (fine: bool)
    ensures
        fine == showable(texts@.map_values(|t: String| t@)),
{
    let ghost written = texts@.map_values(|t: String| t@);
    if texts.len() != DISPLAY_ROWS {
        return false;
    }
    let mut index: usize = 0;
    while index < texts.len()
        invariant
            index <= texts@.len(),
            written == texts@.map_values(|t: String| t@),
            forall|i: int| 0 <= i < index ==> free_of_escape(#[trigger] written[i]),
        decreases texts@.len() - index,
    {
        if !is_free_of_escape(texts[index].as_str()) {
            assert(!free_of_escape(written[index as int]));
            return false;
        }
        index += 1;
    }
    true
}

/// Makes the table of the snapshot from the texts of its values, one text
/// for each line in the order of [`display_values`]. There is no table
/// when the number of texts is another, or when a text holds the escape
/// character. In the table, each name and unit stands as it is, and so
/// does each value that has no line end.
pub fn display_vehicle_data(texts: &Vec<String>) -> (shown: Option<VehicleTable>)
    ensures
        shown is Some <==> showable(texts@.map_values(|t: String| t@)),
        shown matches Some(table) ==> {
            &&& table.rows() == shown_rows(texts@.map_values(|t: String| t@), DISPLAY_ROWS as nat)
            &&& forall|i: int|
                0 <= i < DISPLAY_ROWS && single_line(#[trigger] texts@[i]@) ==> table.rows()[i
                    + 1][1] == one_line(texts@[i]@)
        },
{
    if !are_showable(texts) {
        return None;
    }
    let ghost written = texts@.map_values(|t: String| t@);
    let mut table = VehicleTable::new();
    proof {
        lemma_heading_is_plain();
    }
    table.add_row("Parameter", "Value", "Unit");
    assert(table.rows() =~= shown_rows(written, 0));
    let mut index: usize = 0;
    while index < DISPLAY_ROWS
        invariant
            index <= DISPLAY_ROWS,
            showable(written),
            written == texts@.map_values(|t: String| t@),
            table.rows() == shown_rows(written, index as nat),
            table.rows().len() == index + 1,
            forall|i: int|
                0 <= i < index && single_line(#[trigger] texts@[i]@) ==> table.rows()[i + 1][1]
                    == one_line(texts@[i]@),
        decreases DISPLAY_ROWS - index,
    {
        let row = display_row_at(index);
        proof {
            lemma_lines_are_plain(index);
            assert(free_of_escape(written[index as int]));
        }
        let ghost before = table.rows();
        table.add_row(row.label, texts[index].as_str(), row.unit);
        proof {
            assert(table.rows().last() =~= shown_row(index, written[index as int]));
            assert(table.rows() =~= shown_rows(written, (index + 1) as nat));
            assert forall|i: int|
                0 <= i < index + 1 && single_line(#[trigger] texts@[i]@) implies table.rows()[i
                + 1][1] == one_line(texts@[i]@) by {
                if i < index {
                    assert(table.rows()[i + 1] == before[i + 1]);
                }
            }
        }
        index += 1;
    }
    Some(table)
}

} // verus!
