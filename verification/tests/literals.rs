use rusty::ast::literals::LiteralKind;

fn signed(value: i128) -> Option<String> {
    LiteralKind::LiteralInteger { value }.get_literal_actual_signed_type_name(true).map(|it| it.to_string())
}

fn unsigned(value: i128) -> Option<String> {
    LiteralKind::LiteralInteger { value }.get_literal_actual_signed_type_name(false).map(|it| it.to_string())
}

#[test]
fn integer_literals_get_the_smallest_type() {
    assert_eq!(signed(0), Some("BOOL".to_string()));
    assert_eq!(signed(1), Some("BOOL".to_string()));
    assert_eq!(signed(2), Some("SINT".to_string()));
    assert_eq!(signed(-128), Some("SINT".to_string()));
    assert_eq!(signed(128), Some("INT".to_string()));
    assert_eq!(signed(-32769), Some("DINT".to_string()));
    assert_eq!(signed(2_147_483_648), Some("LINT".to_string()));
    assert_eq!(signed(i64::MAX as i128 + 1), Some("VOID".to_string()));
    assert_eq!(unsigned(255), Some("USINT".to_string()));
    assert_eq!(unsigned(256), Some("UINT".to_string()));
    assert_eq!(unsigned(65_536), Some("UDINT".to_string()));
    assert_eq!(unsigned(4_294_967_296), Some("ULINT".to_string()));
    assert_eq!(unsigned(u64::MAX as i128 + 1), Some("VOID".to_string()));
    assert_eq!(unsigned(-1), Some("VOID".to_string()));
}

#[test]
fn other_literals_get_their_types() {
    assert_eq!(LiteralKind::LiteralBool { value: true }.get_literal_actual_signed_type_name(true), Some("BOOL"));
    assert_eq!(
        LiteralKind::LiteralString { value: "a".to_string(), is_wide: true }.get_literal_actual_signed_type_name(true),
        Some("WSTRING")
    );
    assert_eq!(
        LiteralKind::LiteralString { value: "a".to_string(), is_wide: false }.get_literal_actual_signed_type_name(false),
        Some("STRING")
    );
    assert_eq!(LiteralKind::LiteralReal { value: "1.5".to_string() }.get_literal_actual_signed_type_name(true), Some("LREAL"));
    assert_eq!(LiteralKind::LiteralDate { year: 2021, month: 1, day: 2 }.get_literal_actual_signed_type_name(true), Some("DATE"));
    assert_eq!(
        LiteralKind::LiteralTimeOfDay { hour: 1, min: 2, sec: 3, nano: 4 }.get_literal_actual_signed_type_name(true),
        Some("TIME_OF_DAY")
    );
    assert_eq!(LiteralKind::LiteralNull.get_literal_actual_signed_type_name(true), None);
    assert_eq!(LiteralKind::new_array(None).get_literal_actual_signed_type_name(true), None);
}

#[test]
fn cast_prefixes() {
    assert!(LiteralKind::LiteralInteger { value: 3 }.is_cast_prefix_eligible());
    assert!(LiteralKind::LiteralBool { value: false }.is_cast_prefix_eligible());
    assert!(!LiteralKind::LiteralNull.is_cast_prefix_eligible());
    assert!(!LiteralKind::new_array(None).is_cast_prefix_eligible());
}

#[test]
fn literal_texts() {
    assert_eq!(LiteralKind::LiteralString { value: "abc".to_string(), is_wide: false }.literal_text(), Some("'abc'".to_string()));
    assert_eq!(LiteralKind::LiteralString { value: "abc".to_string(), is_wide: true }.literal_text(), Some("\"abc\"".to_string()));
    assert_eq!(LiteralKind::LiteralBool { value: true }.literal_text(), Some("true".to_string()));
    assert_eq!(LiteralKind::LiteralInteger { value: -12 }.literal_text(), Some("-12".to_string()));
    assert_eq!(LiteralKind::LiteralReal { value: "1.5".to_string() }.literal_text(), Some("1.5".to_string()));
    assert_eq!(LiteralKind::LiteralNull.literal_text(), Some("LiteralNull".to_string()));
    assert_eq!(
        LiteralKind::LiteralDate { year: 2021, month: 1, day: 2 }.literal_text(),
        Some("LiteralDate {\n    year: 2021,\n    month: 1,\n    day: 2,\n}".to_string())
    );
    assert_eq!(
        LiteralKind::LiteralTimeOfDay { hour: 1, min: 2, sec: 3, nano: 4 }.literal_text(),
        Some("LiteralTimeOfDay {\n    hour: 1,\n    min: 2,\n    sec: 3,\n    nano: 4,\n}".to_string())
    );
    assert_eq!(LiteralKind::new_array(None).literal_text(), None);
}
