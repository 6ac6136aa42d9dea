use rusty::ast::{
    UserTypeDeclaration, evaluate_constant_int, extract_value, flatten_expression_list, AccessModifier, AstStatement,
    CompilationUnit, DataType, DataTypeDeclaration, DataTypeInformation, DirectAccess, IdProvider,
    Operator, Pou, PouType, SourceRange, Variable, VariableBlock, VariableBlockType,
};

fn lit_at(value: i128, start: usize, end: usize) -> AstStatement {
    AstStatement::LiteralInteger { value, location: SourceRange::new(start..end), id: value as usize }
}

fn lit(value: i128) -> AstStatement {
    lit_at(value, 0, 0)
}

fn unary(operator: Operator, value: AstStatement) -> AstStatement {
    AstStatement::UnaryExpression {
        operator,
        value: Box::new(value),
        location: SourceRange::undefined(),
        id: 0,
    }
}

fn reference(name: &str) -> AstStatement {
    AstStatement::Reference { name: name.to_string(), location: SourceRange::undefined(), id: 0 }
}

fn integer_values(items: &[&AstStatement]) -> Vec<i128> {
    items
        .iter()
        .map(|it| match it {
            AstStatement::LiteralInteger { value, .. } => *value,
            _ => panic!("not an integer"),
        })
        .collect()
}

#[test]
fn source_range_parts() {
    let r = SourceRange::new(3..10);
    assert_eq!(r.get_start(), 3);
    assert_eq!(r.get_end(), 10);
    assert_eq!(r.to_range(), 3..10);
    assert_eq!(r.sub_range(2, 5).to_range(), 5..8);
    assert_eq!(SourceRange::undefined().to_range(), 0..0);
    assert_eq!(SourceRange::undefined(), SourceRange::new(0..0));
}

#[test]
fn direct_access_widths_and_ranges() {
    let dword = DataTypeInformation { size: 32 };
    assert_eq!(DirectAccess::Bit.get_bit_witdh(), 1);
    assert_eq!(DirectAccess::Byte.get_bit_witdh(), 8);
    assert_eq!(DirectAccess::Word.get_bit_witdh(), 16);
    assert_eq!(DirectAccess::DWord.get_bit_witdh(), 32);
    assert_eq!(DirectAccess::Byte.to_bits(3), 24);
    assert_eq!(DirectAccess::Bit.to_bits(3), 3);
    assert!(DirectAccess::Word.is_in_range(1, &dword));
    assert!(!DirectAccess::Word.is_in_range(2, &dword));
    assert!(DirectAccess::Bit.is_in_range(31, &dword));
    assert!(!DirectAccess::Bit.is_in_range(32, &dword));
    assert_eq!(DirectAccess::Byte.get_range(&dword), 0..3);
    assert_eq!(DirectAccess::Bit.get_range(&dword), 0..31);
    assert!(DirectAccess::Word.is_compatible(&dword));
    assert!(!DirectAccess::DWord.is_compatible(&dword));
    assert!(!DirectAccess::Byte.is_compatible(&DataTypeInformation { size: 8 }));
}

#[test]
fn owner_class_of_methods_only() {
    assert_eq!(
        PouType::Method { owner_class: "MyClass".to_string() }.get_optional_owner_class(),
        Some("MyClass".to_string())
    );
    assert_eq!(PouType::Program.get_optional_owner_class(), None);
    assert_eq!(PouType::Class.get_optional_owner_class(), None);
}

#[test]
fn extract_value_of_constants() {
    assert_eq!(extract_value(&lit(42)), Ok("42".to_string()));
    assert_eq!(extract_value(&lit(0)), Ok("0".to_string()));
    assert_eq!(
        extract_value(&lit(i128::MIN)),
        Ok("-170141183460469231731687303715884105728".to_string())
    );
    assert_eq!(
        extract_value(&lit(i128::MAX)),
        Ok("170141183460469231731687303715884105727".to_string())
    );
    assert_eq!(extract_value(&unary(Operator::Minus, lit(5))), Ok("-5".to_string()));
    assert_eq!(extract_value(&unary(Operator::Plus, lit(-7))), Ok("+-7".to_string()));
    assert_eq!(
        extract_value(&reference("x")),
        Err("Unsupported Statement. Cannot evaluate expression.".to_string())
    );
    assert_eq!(
        extract_value(&unary(Operator::Minus, reference("x"))),
        Err("Unsupported Statement. Cannot evaluate expression.".to_string())
    );
}

#[test]
fn evaluate_constant_integers() {
    assert_eq!(evaluate_constant_int(&lit(42)), Ok(42));
    assert_eq!(evaluate_constant_int(&unary(Operator::Minus, lit(5))), Ok(-5));
    assert_eq!(evaluate_constant_int(&unary(Operator::Plus, lit(7))), Ok(7));
    assert_eq!(evaluate_constant_int(&unary(Operator::Minus, unary(Operator::Minus, lit(5)))), Ok(5));
    assert_eq!(evaluate_constant_int(&unary(Operator::Plus, lit(-7))), Ok(-7));
    // the negation of the smallest i128 does not fit: it evaluates to 0
    assert_eq!(evaluate_constant_int(&unary(Operator::Minus, lit(i128::MIN))), Ok(0));
    // a unary operator other than + and - has no value on one operand
    assert_eq!(evaluate_constant_int(&unary(Operator::Multiplication, lit(3))), Ok(0));
    assert_eq!(evaluate_constant_int(&lit(i128::MIN)), Ok(i128::MIN));
    assert_eq!(
        evaluate_constant_int(&reference("x")),
        Err("Unsupported Statement. Cannot evaluate expression.".to_string())
    );
}

#[test]
fn flatten_nested_multiplied_lists() {
    // 2(3(4,5))
    let inner = AstStatement::ExpressionList { expressions: vec![lit(4), lit(5)], id: 0 };
    let three = AstStatement::MultipliedStatement {
        multiplier: 3,
        element: Box::new(inner),
        location: SourceRange::undefined(),
        id: 0,
    };
    let two = AstStatement::MultipliedStatement {
        multiplier: 2,
        element: Box::new(three),
        location: SourceRange::undefined(),
        id: 0,
    };
    let flat = flatten_expression_list(&two);
    assert_eq!(integer_values(&flat), vec![4, 5, 4, 5, 4, 5, 4, 5, 4, 5, 4, 5]);
}

#[test]
fn flatten_lists_and_single_statements() {
    let list = AstStatement::ExpressionList {
        expressions: vec![
            lit(1),
            AstStatement::ExpressionList { expressions: vec![lit(2), lit(3)], id: 0 },
            AstStatement::ExpressionList { expressions: vec![], id: 0 },
            lit(4),
        ],
        id: 0,
    };
    assert_eq!(integer_values(&flatten_expression_list(&list)), vec![1, 2, 3, 4]);
    assert_eq!(integer_values(&flatten_expression_list(&lit(9))), vec![9]);
    let zero = AstStatement::MultipliedStatement {
        multiplier: 0,
        element: Box::new(lit(1)),
        location: SourceRange::undefined(),
        id: 0,
    };
    assert!(flatten_expression_list(&zero).is_empty());
}

#[test]
fn get_as_list_of_lists_and_statements() {
    let list = AstStatement::ExpressionList { expressions: vec![lit(1), lit(2)], id: 0 };
    assert_eq!(integer_values(&list.get_as_list()), vec![1, 2]);
    assert_eq!(integer_values(&lit(3).get_as_list()), vec![3]);
}

#[test]
fn locations_and_ids() {
    let sum = AstStatement::BinaryExpression {
        operator: Operator::Plus,
        left: Box::new(lit_at(1, 2, 3)),
        right: Box::new(lit_at(2, 6, 7)),
        id: 77,
    };
    assert_eq!(sum.get_location(), SourceRange::new(2..7));
    assert_eq!(sum.get_id(), 77);
    let empty = AstStatement::ExpressionList { expressions: vec![], id: 5 };
    assert_eq!(empty.get_location(), SourceRange::undefined());
    assert_eq!(empty.get_id(), 5);
    assert_eq!(lit_at(8, 4, 5).get_location(), SourceRange::new(4..5));
}

#[test]
fn operator_symbols() {
    assert_eq!(Operator::Plus.symbol(), "+");
    assert_eq!(Operator::Minus.symbol(), "-");
    assert_eq!(Operator::Multiplication.symbol(), "*");
    assert_eq!(Operator::Division.symbol(), "/");
    assert_eq!(Operator::Equal.symbol(), "=");
}

fn pou(name: &str) -> Pou {
    Pou {
        name: name.to_string(),
        variable_blocks: vec![],
        pou_type: PouType::Function,
        return_type: None,
        location: SourceRange::undefined(),
        poly_mode: None,
        generics: vec![],
    }
}

#[test]
fn return_name_is_the_last_part() {
    assert_eq!(pou("prg.foo").get_return_name(), "foo");
    assert_eq!(pou("foo").get_return_name(), "foo");
    assert_eq!(Pou::calc_return_name("a.b.c"), "c");
    assert_eq!(Pou::calc_return_name("a."), "");
    assert_eq!(Pou::calc_return_name(""), "");
}

#[test]
fn import_appends_everything() {
    let mut unit = CompilationUnit::default();
    unit.units.push(pou("a"));
    let mut other = CompilationUnit::default();
    other.units.push(pou("b"));
    other.global_vars.push(VariableBlock {
        access: AccessModifier::Protected,
        constant: false,
        retain: false,
        variables: vec![],
        variable_block_type: VariableBlockType::Global,
    });
    unit.import(other);
    assert_eq!(unit.units.len(), 2);
    assert_eq!(unit.units[0].name, "a");
    assert_eq!(unit.units[1].name, "b");
    assert_eq!(unit.global_vars.len(), 1);
    assert!(unit.types.is_empty());
    assert!(unit.implementations.is_empty());
}

#[test]
fn data_type_names() {
    let mut dt = DataType::StructType { name: None, variables: vec![] };
    assert_eq!(dt.get_name(), None);
    dt.set_name("S".to_string());
    assert_eq!(dt.get_name(), Some("S"));
    let mut varargs = DataType::VarArgs { referenced_type: None };
    varargs.set_name("V".to_string());
    assert_eq!(varargs.get_name(), None);
    let reference = DataTypeDeclaration::DataTypeReference {
        referenced_type: "INT".to_string(),
        location: SourceRange::new(1..4),
    };
    assert_eq!(reference.get_name(), Some("INT"));
    assert_eq!(reference.get_location(), SourceRange::new(1..4));
}

#[test]
fn replace_inner_type_with_reference() {
    let inner = DataTypeDeclaration::DataTypeDefinition {
        data_type: DataType::StringType { name: None, is_wide: false, size: None },
        location: SourceRange::new(5..9),
        scope: None,
    };
    let mut array = DataType::ArrayType {
        name: Some("A".to_string()),
        bounds: lit(0),
        referenced_type: Box::new(inner),
    };
    let old = array.replace_data_type_with_reference_to("A_".to_string(), &SourceRange::new(1..2));
    assert!(matches!(old, Some(DataTypeDeclaration::DataTypeDefinition { .. })));
    match &array {
        DataType::ArrayType { referenced_type, .. } => match referenced_type.as_ref() {
            DataTypeDeclaration::DataTypeReference { referenced_type, location } => {
                assert_eq!(referenced_type, "A_");
                assert_eq!(*location, SourceRange::new(1..2));
            }
            _ => panic!("expected a reference"),
        },
        _ => panic!("expected an array"),
    }
    // a reference stays as it is
    let again = array.replace_data_type_with_reference_to("B".to_string(), &SourceRange::undefined());
    assert!(again.is_none());
    assert_eq!(
        DataType::StructType { name: None, variables: vec![] }
            .replace_data_type_with_reference_to("C".to_string(), &SourceRange::undefined())
            .is_none(),
        true
    );
}

#[test]
fn variable_type_replaced_by_reference() {
    let mut v = Variable {
        name: "x".to_string(),
        data_type: DataTypeDeclaration::DataTypeDefinition {
            data_type: DataType::StructType { name: None, variables: vec![] },
            location: SourceRange::new(3..8),
            scope: None,
        },
        initializer: None,
        location: SourceRange::new(0..1),
    };
    let old = v.replace_data_type_with_reference_to("__x".to_string());
    assert!(matches!(old, DataTypeDeclaration::DataTypeDefinition { .. }));
    assert_eq!(v.data_type.get_name(), Some("__x"));
    assert_eq!(v.data_type.get_location(), SourceRange::new(3..8));
}

#[test]
fn id_provider_counts_up() {
    let mut ids = IdProvider::starting_at(5);
    assert_eq!(ids.peek(), 5);
    assert_eq!(ids.next_id(), 5);
    assert_eq!(ids.next_id(), 6);
    assert_eq!(ids.peek(), 7);
    let mut last = IdProvider::starting_at(usize::MAX);
    assert_eq!(last.next_id(), usize::MAX);
    assert_eq!(last.next_id(), 0);
}

#[test]
fn debug_text_of_statements() {
    assert_eq!(reference("x").debug_text(), Some("Reference { name: \"x\" }".to_string()));
    assert_eq!(
        AstStatement::BinaryExpression {
            operator: Operator::Plus,
            left: Box::new(lit(1)),
            right: Box::new(reference("a")),
            id: 0,
        }
        .debug_text(),
        Some("BinaryExpression { operator: Plus, left: LiteralInteger { value: 1 }, right: Reference { name: \"a\" } }".to_string())
    );
    assert_eq!(
        AstStatement::ExpressionList { expressions: vec![lit(1), lit(2)], id: 0 }.debug_text(),
        Some("ExpressionList { expressions: [LiteralInteger { value: 1 }, LiteralInteger { value: 2 }] }".to_string())
    );
    assert_eq!(
        AstStatement::ExpressionList { expressions: vec![], id: 0 }.debug_text(),
        Some("ExpressionList { expressions: [] }".to_string())
    );
    assert_eq!(
        AstStatement::EmptyStatement { location: SourceRange::undefined(), id: 0 }.debug_text(),
        Some("EmptyStatement".to_string())
    );
    assert_eq!(
        AstStatement::LiteralString {
            value: "a\"b".to_string(),
            is_wide: true,
            location: SourceRange::undefined(),
            id: 0
        }
        .debug_text(),
        Some("LiteralString { value: \"a\\\"b\", is_wide: true }".to_string())
    );
    assert_eq!(
        AstStatement::CastStatement {
            target: Box::new(lit(3)),
            type_identifier: "INT".to_string(),
            location: SourceRange::undefined(),
            id: 0
        }
        .debug_text(),
        Some("CastStatement { type_name: \"INT\", target: LiteralInteger { value: 3 } }".to_string())
    );
    let for_loop = AstStatement::ForLoopStatement {
        counter: Box::new(reference("i")),
        start: Box::new(lit(0)),
        end: Box::new(lit(9)),
        by_step: None,
        body: vec![AstStatement::ExitStatement { location: SourceRange::undefined(), id: 0 }],
        location: SourceRange::undefined(),
        id: 0,
    };
    assert_eq!(
        for_loop.debug_text(),
        Some("ForLoopStatement { counter: Reference { name: \"i\" }, start: LiteralInteger { value: 0 }, end: LiteralInteger { value: 9 }, by_step: None, body: [ExitStatement] }".to_string())
    );
    let duration = AstStatement::LiteralTime {
        day: 0,
        hour: 0,
        min: 0,
        sec: 0,
        milli: 0,
        micro: 0,
        nano: 0,
        negative: false,
        location: SourceRange::undefined(),
        id: 0,
    };
    assert_eq!(
        AstStatement::ExpressionList { expressions: vec![lit(1), duration], id: 0 }.debug_text(),
        None
    );
}

#[test]
fn clones_are_equal() {
    let v = Variable {
        name: "x".to_string(),
        data_type: DataTypeDeclaration::DataTypeDefinition {
            data_type: DataType::ArrayType {
                name: None,
                bounds: lit(3),
                referenced_type: Box::new(DataTypeDeclaration::DataTypeReference {
                    referenced_type: "INT".to_string(),
                    location: SourceRange::new(1..2),
                }),
            },
            location: SourceRange::new(3..8),
            scope: Some("prg".to_string()),
        },
        initializer: Some(unary(Operator::Minus, lit(2))),
        location: SourceRange::new(0..1),
    };
    assert_eq!(v.clone(), v);
    let mut unit = CompilationUnit::default();
    unit.units.push(pou("a"));
    assert_eq!(unit.clone(), unit);
}

#[test]
fn debug_text_of_declarations() {
    let int_ref = DataTypeDeclaration::DataTypeReference {
        referenced_type: "INT".to_string(),
        location: SourceRange::undefined(),
    };
    assert_eq!(int_ref.debug_text(), Some("DataTypeReference { referenced_type: \"INT\" }".to_string()));
    let x = Variable {
        name: "x".to_string(),
        data_type: int_ref.clone(),
        initializer: None,
        location: SourceRange::undefined(),
    };
    assert_eq!(
        x.debug_text(),
        Some("Variable { name: \"x\", data_type: DataTypeReference { referenced_type: \"INT\" } }".to_string())
    );
    let y = Variable { initializer: Some(lit(7)), ..x.clone() };
    assert_eq!(
        y.debug_text(),
        Some("Variable { name: \"x\", data_type: DataTypeReference { referenced_type: \"INT\" }, initializer: Some(LiteralInteger { value: 7 }) }".to_string())
    );
    let array = DataType::ArrayType {
        name: Some("A".to_string()),
        bounds: lit(3),
        referenced_type: Box::new(int_ref.clone()),
    };
    assert_eq!(
        array.debug_text(),
        Some("ArrayType { name: Some(\"A\"), bounds: LiteralInteger { value: 3 }, referenced_type: DataTypeReference { referenced_type: \"INT\" } }".to_string())
    );
    assert_eq!(
        DataType::VarArgs { referenced_type: None }.debug_text(),
        Some("VarArgs { referenced_type: None }".to_string())
    );
    assert_eq!(
        DataType::StringType { name: None, is_wide: false, size: Some(lit(20)) }.debug_text(),
        Some("StringType { name: None, is_wide: false, size: Some(LiteralInteger { value: 20 }) }".to_string())
    );
    let declared = UserTypeDeclaration {
        data_type: DataType::StructType { name: Some("S".to_string()), variables: vec![x] },
        initializer: None,
        location: SourceRange::undefined(),
        scope: None,
    };
    assert_eq!(
        declared.debug_text(),
        Some("UserTypeDeclaration { data_type: StructType { name: Some(\"S\"), variables: [Variable { name: \"x\", data_type: DataTypeReference { referenced_type: \"INT\" } }] }, initializer: None }".to_string())
    );
    let mut p = pou("prg");
    p.pou_type = PouType::Program;
    p.variable_blocks.push(VariableBlock {
        access: AccessModifier::Protected,
        constant: false,
        retain: false,
        variables: vec![],
        variable_block_type: VariableBlockType::Local,
    });
    assert_eq!(
        p.debug_text(),
        Some("POU { name: \"prg\", variable_blocks: [VariableBlock { variables: [], variable_block_type: Local }], pou_type: Program, return_type: None }".to_string())
    );
    let mut m = pou("m");
    m.pou_type = PouType::Method { owner_class: "C".to_string() };
    m.return_type = Some(int_ref);
    assert_eq!(
        m.debug_text(),
        Some("POU { name: \"m\", variable_blocks: [], pou_type: Method { owner_class: \"C\" }, return_type: Some(DataTypeReference { referenced_type: \"INT\" }) }".to_string())
    );
}

#[test]
fn debug_text_ignores_locations_and_ids() {
    let at = |start: usize, id: usize| AstStatement::BinaryExpression {
        operator: Operator::Plus,
        left: Box::new(lit_at(1, start, start + 1)),
        right: Box::new(AstStatement::Reference {
            name: "a".to_string(),
            location: SourceRange::new(start + 2..start + 3),
            id,
        }),
        id,
    };
    assert_eq!(at(0, 1).debug_text(), at(40, 77).debug_text());
    assert_eq!(
        AstStatement::EmptyStatement { location: SourceRange::new(3..4), id: 9 }.debug_text(),
        Some("EmptyStatement".to_string())
    );
}
