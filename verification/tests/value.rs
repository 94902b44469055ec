use can_to_mqtt::value::{decimal_text, PhysicalValue};

#[test]
fn whole_numbers_in_decimal() {
    assert_eq!(decimal_text(0), "0");
    assert_eq!(decimal_text(7), "7");
    assert_eq!(decimal_text(10), "10");
    assert_eq!(decimal_text(39), "39");
    assert_eq!(decimal_text(1883), "1883");
    assert_eq!(decimal_text(655350), "655350");
    assert_eq!(decimal_text(-1), "-1");
    assert_eq!(decimal_text(-40), "-40");
    assert_eq!(decimal_text(1000000007), "1000000007");
    assert_eq!(decimal_text(i64::MAX), "9223372036854775807");
    assert_eq!(decimal_text(i64::MIN), "-9223372036854775808");
}

#[test]
fn decimal_text_is_what_the_standard_library_writes() {
    let mut n: i64 = 1;
    for _ in 0..62 {
        assert_eq!(decimal_text(n), n.to_string());
        assert_eq!(decimal_text(-n), (-n).to_string());
        assert_eq!(decimal_text(n - 1), (n - 1).to_string());
        n *= 2;
    }
}

#[test]
fn only_whole_numbers_have_a_text() {
    assert_eq!(PhysicalValue::Integer(-40).text(), Some("-40".to_string()));
    assert_eq!(PhysicalValue::Integer(0).text(), Some("0".to_string()));
    assert_eq!(PhysicalValue::Ratio { numerator: 1000, denominator: 4 }.text(), None);
    assert_eq!(PhysicalValue::Ratio { numerator: 5, denominator: 1 }.text(), None);
    assert_eq!(PhysicalValue::zero(), PhysicalValue::Integer(0));
}
