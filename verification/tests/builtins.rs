use rusty::ast::{AstStatement, IdProvider, Operator, SourceRange};
use rusty::builtins::{arithmetic_replacement, comparison_replacement};

fn reference(name: &str) -> AstStatement {
    AstStatement::Reference { name: name.to_string(), location: SourceRange::undefined(), id: 0 }
}

fn list(names: &[&str]) -> AstStatement {
    AstStatement::ExpressionList { expressions: names.iter().map(|n| reference(n)).collect(), id: 0 }
}

#[test]
fn arithmetic_joins_from_the_left() {
    let mut ids = IdProvider::starting_at(10);
    let r = arithmetic_replacement(&list(&["a", "b", "c", "d"]), Operator::Plus, &mut ids);
    assert_eq!(
        r.debug_text().unwrap(),
        "BinaryExpression { operator: Plus, left: BinaryExpression { operator: Plus, left: BinaryExpression { operator: Plus, left: Reference { name: \"a\" }, right: Reference { name: \"b\" } }, right: Reference { name: \"c\" } }, right: Reference { name: \"d\" } }"
    );
    assert_eq!(r.get_id(), 12);
    assert_eq!(ids.peek(), 13);
}

#[test]
fn arithmetic_takes_the_values_of_named_arguments() {
    let named = AstStatement::Assignment {
        left: Box::new(reference("IN1")),
        right: Box::new(reference("x")),
        id: 0,
    };
    let params = AstStatement::ExpressionList { expressions: vec![named, reference("y")], id: 0 };
    let mut ids = IdProvider::starting_at(0);
    let r = arithmetic_replacement(&params, Operator::Multiplication, &mut ids);
    assert_eq!(
        r.debug_text().unwrap(),
        "BinaryExpression { operator: Multiplication, left: Reference { name: \"x\" }, right: Reference { name: \"y\" } }"
    );
    // one argument: its value alone
    let mut ids = IdProvider::starting_at(5);
    let r = arithmetic_replacement(&reference("z"), Operator::Plus, &mut ids);
    assert_eq!(r.debug_text().unwrap(), "Reference { name: \"z\" }");
    assert_eq!(ids.peek(), 5);
}

#[test]
fn comparisons_chain_neighbours() {
    let mut ids = IdProvider::starting_at(0);
    let r = comparison_replacement(&list(&["a", "b", "c"]), Operator::Greater, &mut ids).unwrap();
    assert_eq!(
        r.debug_text().unwrap(),
        "BinaryExpression { operator: And, left: BinaryExpression { operator: Greater, left: Reference { name: \"a\" }, right: Reference { name: \"b\" } }, right: BinaryExpression { operator: Greater, left: Reference { name: \"b\" }, right: Reference { name: \"c\" } } }"
    );
    // the comparisons take the first ids, the AND the next one
    assert_eq!(r.get_id(), 2);
    match &r {
        AstStatement::BinaryExpression { left, right, .. } => {
            assert_eq!(left.get_id(), 0);
            assert_eq!(right.get_id(), 1);
        }
        _ => panic!("expected a binary expression"),
    }
    assert_eq!(ids.peek(), 3);
}

#[test]
fn comparisons_of_two_and_fewer_arguments() {
    let mut ids = IdProvider::starting_at(4);
    let r = comparison_replacement(&list(&["a", "b"]), Operator::Less, &mut ids).unwrap();
    assert_eq!(
        r.debug_text().unwrap(),
        "BinaryExpression { operator: Less, left: Reference { name: \"a\" }, right: Reference { name: \"b\" } }"
    );
    assert_eq!(r.get_id(), 4);
    assert_eq!(ids.peek(), 5);
    let mut ids = IdProvider::starting_at(4);
    assert!(comparison_replacement(&reference("a"), Operator::Less, &mut ids).is_none());
    assert_eq!(ids.peek(), 4);
}
