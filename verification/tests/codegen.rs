use rusty::ast::{AstStatement, Operator, SourceRange};
use rusty::codegen::data_type_generator::{get_array_dimensions, get_single_array_dimension, Dimension};
use rusty::codegen::debug::VariableKey;
use rusty::codegen::generators::date_time_util::calculate_date_time;
use rusty::codegen::got_layout::got_layout;
use rusty::codegen::generators::instance_struct_generator;
use rusty::codegen::generators::struct_generator;

fn lit(value: i128) -> AstStatement {
    AstStatement::LiteralInteger { value, location: SourceRange::undefined(), id: 0 }
}

fn negative(value: i128) -> AstStatement {
    AstStatement::UnaryExpression {
        operator: Operator::Minus,
        value: Box::new(lit(value)),
        location: SourceRange::undefined(),
        id: 0,
    }
}

fn range(start: AstStatement, end: AstStatement) -> AstStatement {
    AstStatement::RangeStatement { start: Box::new(start), end: Box::new(end), id: 0 }
}

#[test]
fn casting_between_i128_and_u64() {
    let n: i128 = u64::MAX as i128;
    let nn: u64 = n as u64;
    assert_eq!(0xFFFF_FFFF_FFFF_FFFF_u64, nn);

    let n: i128 = i64::MAX as i128;
    let nn: u64 = n as u64;
    assert_eq!(0x7FFF_FFFF_FFFF_FFFF_u64, nn);
}

#[test]
fn date_time_counts_nanos_since_epoch() {
    assert_eq!(calculate_date_time(1970, 1, 1, 0, 0, 0, 0), Ok(0));
    assert_eq!(calculate_date_time(1970, 1, 1, 0, 0, 1, 444), Ok(1_000_000_444));
    assert_eq!(calculate_date_time(2020, 2, 29, 12, 30, 15, 123), Ok(1_582_979_415_000_000_123));
    assert_eq!(calculate_date_time(1969, 12, 31, 23, 59, 59, 0), Ok(-1_000_000_000));
}

#[test]
fn date_time_rejects_dates_that_do_not_exist() {
    assert_eq!(
        calculate_date_time(2021, 2, 29, 0, 0, 0, 0),
        Err("Invalid Date 2021-2-29-0:0:0.0".to_string())
    );
    assert_eq!(
        calculate_date_time(2021, 13, 1, 0, 0, 0, 0),
        Err("Invalid Date 2021-13-1-0:0:0.0".to_string())
    );
    assert_eq!(
        calculate_date_time(2021, 1, 1, 24, 0, 0, 0),
        Err("Invalid Date 2021-1-1-24:0:0.0".to_string())
    );
    assert_eq!(
        calculate_date_time(-5, 1, 1, 0, 60, 0, 7),
        Err("Invalid Date -5-1-1-0:60:0.7".to_string())
    );
}

#[test]
fn pou_instance_names_append_instance() {
    assert_eq!(instance_struct_generator::get_pou_instance_variable_name("prg"), "prg_instance");
    assert_eq!(struct_generator::get_pou_instance_variable_name("fb.x"), "fb.x_instance");
    assert_eq!(struct_generator::get_pou_instance_variable_name(""), "_instance");
}

#[test]
fn single_dimension_of_a_range() {
    assert_eq!(
        get_single_array_dimension(&range(lit(0), lit(5))),
        Ok(Dimension { start_offset: 0, end_offset: 5 })
    );
    assert_eq!(
        get_single_array_dimension(&range(negative(3), lit(3))),
        Ok(Dimension { start_offset: -3, end_offset: 3 })
    );
    assert_eq!(
        get_single_array_dimension(&lit(4)),
        Err(Some("Unexpected Statement LiteralInteger { value: 4 }, expected range".to_string()))
    );
    assert_eq!(
        get_single_array_dimension(&negative(4)),
        Err(Some("Unexpected Statement UnaryExpression { operator: Minus, value: LiteralInteger { value: 4 } }, expected range".to_string()))
    );
    // the message for a duration is left to the caller
    let duration = AstStatement::LiteralTime {
        day: 0,
        hour: 0,
        min: 0,
        sec: 0,
        milli: 0,
        micro: 0,
        nano: 0,
        negative: false,
        location: SourceRange::undefined(),
        id: 0,
    };
    assert_eq!(
        get_single_array_dimension(&duration),
        Err(None)
    );
}

#[test]
fn bounds_that_are_no_constants_count_as_zero() {
    let reference = AstStatement::Reference {
        name: "x".to_string(),
        location: SourceRange::undefined(),
        id: 0,
    };
    assert_eq!(
        get_single_array_dimension(&range(reference, lit(7))),
        Ok(Dimension { start_offset: 0, end_offset: 7 })
    );
    // the bounds of i32 are read exactly, a bound beyond them reads as 0
    assert_eq!(
        get_single_array_dimension(&range(negative(2_147_483_648), lit(2_147_483_647))),
        Ok(Dimension { start_offset: i32::MIN, end_offset: i32::MAX })
    );
    assert_eq!(
        get_single_array_dimension(&range(lit(2_147_483_648), negative(2_147_483_649))),
        Ok(Dimension { start_offset: 0, end_offset: 0 })
    );
    assert_eq!(
        get_single_array_dimension(&range(lit(1), lit(5_000_000_000))),
        Ok(Dimension { start_offset: 1, end_offset: 0 })
    );
    let cast = AstStatement::CastStatement {
        target: Box::new(lit(5)),
        type_identifier: "INT".to_string(),
        location: SourceRange::new(0..7),
        id: 1,
    };
    assert_eq!(
        get_single_array_dimension(&cast),
        Err(Some("Unexpected Statement CastStatement { type_name: \"INT\", target: LiteralInteger { value: 5 } }, expected range".to_string()))
    );
}

#[test]
fn dimensions_of_a_list_of_ranges() {
    let bounds = AstStatement::ExpressionList {
        expressions: vec![range(lit(1), lit(2)), range(negative(4), lit(8))],
        id: 0,
    };
    assert_eq!(
        get_array_dimensions(&bounds),
        vec![
            Dimension { start_offset: 1, end_offset: 2 },
            Dimension { start_offset: -4, end_offset: 8 }
        ]
    );
    assert_eq!(
        get_array_dimensions(&range(lit(0), lit(9))),
        vec![Dimension { start_offset: 0, end_offset: 9 }]
    );
}

#[test]
fn variable_keys_compare_name_and_parent() {
    assert_eq!(VariableKey::new("a", Some("prg")), VariableKey::new("a", Some("prg")));
    assert_ne!(VariableKey::new("a", Some("prg")), VariableKey::new("a", None));
    assert_ne!(VariableKey::new("a", None), VariableKey::new("b", None));
}

fn owned(entries: &[(&str, u64)]) -> Vec<(String, u64)> {
    entries.iter().map(|(n, i)| (n.to_string(), *i)).collect()
}

fn names(items: &[&str]) -> Vec<String> {
    items.iter().map(|it| it.to_string()).collect()
}

#[test]
fn got_layout_numbers_new_names_from_zero() {
    let (entries, size) = got_layout(&vec![], &names(&["a", "b", "c"]));
    assert_eq!(entries, owned(&[("a", 0), ("b", 1), ("c", 2)]));
    assert_eq!(size, 3);
    let (entries, size) = got_layout(&vec![], &vec![]);
    assert!(entries.is_empty());
    assert_eq!(size, 0);
}

#[test]
fn got_layout_keeps_old_indices_and_fills_gaps() {
    let previous = owned(&[("a", 5), ("b", 1), ("gone", 0)]);
    let (entries, size) = got_layout(&previous, &names(&["b", "x", "a", "y", "z"]));
    assert_eq!(entries, owned(&[("b", 1), ("a", 5), ("x", 0), ("y", 2), ("z", 3)]));
    assert_eq!(size, 6);
}
