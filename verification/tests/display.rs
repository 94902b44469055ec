use can_to_mqtt::display::table::{is_free_of_escape, VehicleTable};
use can_to_mqtt::display::{display_row_at, display_values, display_vehicle_data, DISPLAY_ROWS};
use can_to_mqtt::obd::frame::RawFrame;
use can_to_mqtt::obd::response::parse_obd_response;
use can_to_mqtt::value::PhysicalValue;
use can_to_mqtt::vehicle::data::{Field, VehicleData};

#[test]
fn a_new_table_has_no_cell() {
    let table = VehicleTable::new();
    assert_eq!(table.cell(0, 0), None);
}

#[test]
fn rows_are_kept_in_the_order_they_were_added() {
    let mut table = VehicleTable::new();
    table.add_row("Engine Load", "39", "%");
    table.add_row("Engine RPM", "250", "RPM");
    assert_eq!(table.cell(0, 0), Some("Engine Load".to_string()));
    assert_eq!(table.cell(0, 1), Some("39".to_string()));
    assert_eq!(table.cell(0, 2), Some("%".to_string()));
    assert_eq!(table.cell(0, 3), None);
    assert_eq!(table.cell(1, 0), Some("Engine RPM".to_string()));
    assert_eq!(table.cell(1, 1), Some("250".to_string()));
    assert_eq!(table.cell(1, 2), Some("RPM".to_string()));
    assert_eq!(table.cell(2, 0), None);
}

#[test]
fn a_cell_keeps_its_text_line_by_line() {
    let mut table = VehicleTable::new();
    table.add_row("two\nlines", "ends with a line feed\n", "");
    assert_eq!(table.cell(0, 0), Some("two\nlines".to_string()));
    assert_eq!(table.cell(0, 1), Some("ends with a line feed".to_string()));
    assert_eq!(table.cell(0, 2), Some(String::new()));
}

#[test]
fn clear_takes_all_rows_out() {
    let mut table = VehicleTable::new();
    table.add_row("a", "b", "c");
    table.clear();
    assert_eq!(table.cell(0, 0), None);
    table.add_row("d", "e", "f");
    assert_eq!(table.cell(0, 0), Some("d".to_string()));
    assert_eq!(table.cell(1, 0), None);
}

#[test]
fn the_drawing_of_a_table() {
    let mut table = VehicleTable::new();
    table.add_row("Parameter", "Value", "Unit");
    table.add_row("Engine RPM", "250", "RPM");
    assert_eq!(
        table.display(),
        "+------------+-------+------+\n\
         | Parameter  | Value | Unit |\n\
         +------------+-------+------+\n\
         | Engine RPM | 250   | RPM  |\n\
         +------------+-------+------+\n"
    );
}

#[test]
fn the_drawing_of_an_empty_table() {
    let table = VehicleTable::new();
    let drawing = table.display();
    assert!(!drawing.contains('|'));
}

#[test]
fn the_lines_shown() {
    assert_eq!(DISPLAY_ROWS, 42);
    let first = display_row_at(0);
    assert_eq!((first.label, first.field, first.decimals, first.unit), ("Engine Load", Field::EngineLoad, None, "%"));
    let second = display_row_at(1);
    assert_eq!((second.label, second.field, second.decimals, second.unit), ("Engine RPM", Field::EngineRpm, Some(0), "RPM"));
    let advance = display_row_at(3);
    assert_eq!((advance.label, advance.field, advance.decimals, advance.unit), ("Timing Advance", Field::TimingAdvance, Some(1), "°"));
    let ratio = display_row_at(23);
    assert_eq!((ratio.label, ratio.field, ratio.decimals, ratio.unit), ("Commanded AFR", Field::CommandEquivRatio, Some(3), "λ"));
    let wide_band = display_row_at(27);
    assert_eq!((wide_band.label, wide_band.field, wide_band.decimals, wide_band.unit), ("O2 Sensor Voltage B1S1", Field::O2Voltage, Some(3), "V"));
    let last = display_row_at(41);
    assert_eq!((last.label, last.field, last.decimals, last.unit), ("Time Since Codes Cleared", Field::TimeSinceCodesCleared, None, "min"));
    let beyond = display_row_at(42);
    assert_eq!(beyond.label, "Time Since Codes Cleared");
}

#[test]
fn the_values_shown_are_those_of_the_snapshot() {
    let mut data = VehicleData::new();
    parse_obd_response(&RawFrame { id: 0x7E8, data: vec![0x04, 0x41, 0x0C, 0x03, 0xE8] }, &mut data);
    parse_obd_response(&RawFrame { id: 0x7E8, data: vec![0x03, 0x41, 0x04, 0x64] }, &mut data);
    let values = display_values(&data);
    assert_eq!(values.len(), 42);
    assert_eq!(values[0].value, PhysicalValue::Integer(39));
    assert_eq!(values[0].decimals, None);
    assert_eq!(values[1].value, PhysicalValue::Ratio { numerator: 1000, denominator: 4 });
    assert_eq!(values[1].decimals, Some(0));
    for place in 0..42 {
        let row = display_row_at(place);
        assert_eq!(values[place].value, data.get(row.field));
        assert_eq!(values[place].decimals, row.decimals);
    }
}

#[test]
fn the_table_of_the_snapshot() {
    let texts: Vec<String> = (0..42).map(|i| format!("v{}", i)).collect();
    let table = display_vehicle_data(&texts).unwrap();
    assert_eq!(table.cell(0, 0), Some("Parameter".to_string()));
    assert_eq!(table.cell(0, 1), Some("Value".to_string()));
    assert_eq!(table.cell(0, 2), Some("Unit".to_string()));
    for place in 0..42 {
        let row = display_row_at(place);
        assert_eq!(table.cell(place + 1, 0), Some(row.label.to_string()));
        assert_eq!(table.cell(place + 1, 1), Some(format!("v{}", place)));
        assert_eq!(table.cell(place + 1, 2), Some(row.unit.to_string()));
    }
    assert_eq!(table.cell(43, 0), None);
    let drawing = table.display();
    assert!(drawing.contains("| Engine Load                | v0    | %    |"));
    assert!(drawing.contains("| Timing Advance             | v3    | °    |"));
    assert_eq!(drawing.lines().count(), 2 * 43 + 1);
}

#[test]
fn the_wrong_number_of_texts_gives_no_table() {
    assert!(display_vehicle_data(&Vec::new()).is_none());
    let short: Vec<String> = (0..41).map(|i| i.to_string()).collect();
    assert!(display_vehicle_data(&short).is_none());
    let long: Vec<String> = (0..43).map(|i| i.to_string()).collect();
    assert!(display_vehicle_data(&long).is_none());
}

#[test]
fn the_escape_character_is_found_wherever_it_stands() {
    assert!(is_free_of_escape(""));
    assert!(is_free_of_escape("Engine RPM"));
    assert!(is_free_of_escape("°C λ \n \r"));
    assert!(!is_free_of_escape("\u{1b}"));
    assert!(!is_free_of_escape("\u{1b}[31mred\u{1b}[0m"));
    assert!(!is_free_of_escape("λ°\u{1b}"));
    assert!(!is_free_of_escape("a\u{1b}b"));
}

#[test]
fn a_text_with_the_escape_character_is_kept_out_of_the_table() {
    let mut table = VehicleTable::new();
    assert!(table.try_add_row("Engine RPM", "250", "RPM"));
    assert!(!table.try_add_row("\u{1b}[\u{644}\u{627}\u{644}\u{627}", "1", "x"));
    assert!(!table.try_add_row("a", "\u{1b}[31m1", "x"));
    assert!(!table.try_add_row("a", "1", "x\u{1b}"));
    assert!(table.try_add_row("Unit of heat", "21", "°C"));
    assert_eq!(table.cell(0, 0), Some("Engine RPM".to_string()));
    assert_eq!(table.cell(1, 0), Some("Unit of heat".to_string()));
    assert_eq!(table.cell(1, 2), Some("°C".to_string()));
    assert_eq!(table.cell(2, 0), None);
}

#[test]
fn texts_with_the_escape_character_give_no_table() {
    let mut texts: Vec<String> = (0..42).map(|i| i.to_string()).collect();
    assert!(display_vehicle_data(&texts).is_some());
    texts[41] = "\u{1b}[\u{644}\u{627}\u{644}\u{627}".to_string();
    assert!(display_vehicle_data(&texts).is_none());
    texts[41] = "41".to_string();
    texts[0] = "\u{1b}".to_string();
    assert!(display_vehicle_data(&texts).is_none());
    texts[0] = "two\nlines".to_string();
    let table = display_vehicle_data(&texts).unwrap();
    assert_eq!(table.cell(1, 1), Some("two\nlines".to_string()));
}

#[test]
fn equal_texts_are_drawn_alike() {
    let texts: Vec<String> = (0..42).map(|i| format!("{}.5", i)).collect();
    let first = display_vehicle_data(&texts).unwrap().display();
    let second = display_vehicle_data(&texts.clone()).unwrap().display();
    assert_eq!(first, second);
    let mut by_hand = VehicleTable::new();
    by_hand.add_row("Parameter", "Value", "Unit");
    for place in 0..42 {
        let row = display_row_at(place);
        by_hand.add_row(row.label, &texts[place], row.unit);
    }
    assert_eq!(by_hand.display(), first);
    let mut cleared = VehicleTable::new();
    cleared.add_row("something", "else", "first");
    cleared.clear();
    cleared.add_row("Engine RPM", "250", "RPM");
    let mut fresh = VehicleTable::new();
    fresh.add_row("Engine RPM", "250", "RPM");
    assert_eq!(cleared.display(), fresh.display());
}
