use rusty::ast::{
    pre_process, AccessModifier, AstStatement, CompilationUnit, DataType, DataTypeDeclaration,
    GenericBinding, IdProvider, Operator, Pou, PouType, SourceRange, TypeNature,
    UserTypeDeclaration, Variable, VariableBlock, VariableBlockType,
};

fn loc(start: usize, end: usize) -> SourceRange {
    SourceRange::new(start..end)
}

fn reference_to(name: &str) -> DataTypeDeclaration {
    DataTypeDeclaration::DataTypeReference { referenced_type: name.to_string(), location: loc(0, 1) }
}

fn defined(data_type: DataType, at: SourceRange) -> DataTypeDeclaration {
    DataTypeDeclaration::DataTypeDefinition { data_type, location: at, scope: None }
}

fn range_bounds() -> AstStatement {
    AstStatement::RangeStatement {
        start: Box::new(AstStatement::LiteralInteger { value: 0, location: loc(0, 0), id: 0 }),
        end: Box::new(AstStatement::LiteralInteger { value: 5, location: loc(0, 0), id: 0 }),
        id: 0,
    }
}

fn array_of(inner: DataTypeDeclaration) -> DataType {
    DataType::ArrayType { name: None, bounds: range_bounds(), referenced_type: Box::new(inner) }
}

fn string_type() -> DataType {
    DataType::StringType { name: None, is_wide: false, size: None }
}

fn variable(name: &str, data_type: DataTypeDeclaration) -> Variable {
    Variable { name: name.to_string(), data_type, initializer: None, location: loc(0, 1) }
}

fn block(variables: Vec<Variable>, kind: VariableBlockType) -> VariableBlock {
    VariableBlock {
        access: AccessModifier::Protected,
        constant: false,
        retain: false,
        variables,
        variable_block_type: kind,
    }
}

fn pou(name: &str, variables: Vec<Variable>) -> Pou {
    Pou {
        name: name.to_string(),
        variable_blocks: vec![block(variables, VariableBlockType::Local)],
        pou_type: PouType::Program,
        return_type: None,
        location: loc(0, 100),
        poly_mode: None,
        generics: vec![],
    }
}

fn declared(name: &str, data_type: DataType) -> UserTypeDeclaration {
    UserTypeDeclaration { data_type, initializer: None, location: loc(0, 50), scope: None }
}

fn type_names(unit: &CompilationUnit) -> Vec<String> {
    unit.types.iter().map(|t| t.data_type.get_name().unwrap_or("").to_string()).collect()
}

fn referenced(d: &DataTypeDeclaration) -> &str {
    match d {
        DataTypeDeclaration::DataTypeReference { referenced_type, .. } => referenced_type.as_str(),
        _ => panic!("expected a reference"),
    }
}

fn inner_of(dt: &DataType) -> &DataTypeDeclaration {
    match dt {
        DataType::ArrayType { referenced_type, .. } => referenced_type,
        DataType::PointerType { referenced_type, .. } => referenced_type,
        _ => panic!("expected an array or a pointer"),
    }
}

#[test]
fn pou_variables_get_implicit_types() {
    let mut unit = CompilationUnit::default();
    unit.units.push(pou(
        "prg",
        vec![
            variable("x", defined(array_of(reference_to("INT")), loc(10, 20))),
            variable("y", reference_to("DINT")),
        ],
    ));
    let mut ids = IdProvider::starting_at(0);
    pre_process(&mut unit, &mut ids);
    let vars = &unit.units[0].variable_blocks[0].variables;
    assert_eq!(referenced(&vars[0].data_type), "__prg_x");
    assert_eq!(vars[0].data_type.get_location(), loc(10, 20));
    assert_eq!(referenced(&vars[1].data_type), "DINT");
    assert_eq!(type_names(&unit), vec!["__prg_x"]);
    assert_eq!(unit.types[0].location, loc(10, 20));
    assert_eq!(referenced(inner_of(&unit.types[0].data_type)), "INT");
    assert_eq!(ids.peek(), 0);
}

#[test]
fn nested_definitions_are_named_after_their_container() {
    let inner = array_of(defined(string_type(), loc(30, 35)));
    let mut unit = CompilationUnit::default();
    unit.units.push(pou("prg", vec![variable("y", defined(array_of(defined(inner, loc(20, 40))), loc(10, 50)))]));
    pre_process(&mut unit, &mut IdProvider::starting_at(0));
    // the innermost type comes first, then the ones that contain it
    assert_eq!(type_names(&unit), vec!["__prg_y__", "__prg_y_", "__prg_y"]);
    assert_eq!(referenced(inner_of(&unit.types[2].data_type)), "__prg_y_");
    assert_eq!(referenced(inner_of(&unit.types[1].data_type)), "__prg_y__");
    assert_eq!(unit.types[2].location, loc(10, 50));
    assert_eq!(unit.types[1].location, loc(10, 50));
    assert_eq!(unit.types[0].location, loc(20, 40));
}

#[test]
fn global_variables_are_named_after_global() {
    let mut unit = CompilationUnit::default();
    unit.global_vars.push(block(
        vec![variable("g", defined(string_type(), loc(1, 2))), variable("v", defined(DataType::VarArgs { referenced_type: None }, loc(3, 4)))],
        VariableBlockType::Global,
    ));
    pre_process(&mut unit, &mut IdProvider::starting_at(0));
    assert_eq!(referenced(&unit.global_vars[0].variables[0].data_type), "__global_g");
    // varargs stay defined in place
    assert!(matches!(
        unit.global_vars[0].variables[1].data_type,
        DataTypeDeclaration::DataTypeDefinition { data_type: DataType::VarArgs { .. }, .. }
    ));
    assert_eq!(type_names(&unit), vec!["__global_g"]);
}

#[test]
fn return_types_get_implicit_types() {
    let mut unit = CompilationUnit::default();
    let mut foo = pou("foo", vec![]);
    foo.pou_type = PouType::Function;
    foo.return_type = Some(defined(string_type(), loc(7, 9)));
    unit.units.push(foo);
    pre_process(&mut unit, &mut IdProvider::starting_at(0));
    assert_eq!(referenced(unit.units[0].return_type.as_ref().unwrap()), "__foo_return");
    assert_eq!(type_names(&unit), vec!["__foo_return"]);
}

#[test]
fn generic_parameters_get_generic_types() {
    let mut unit = CompilationUnit::default();
    let mut generic = pou("gen", vec![variable("x", reference_to("T")), variable("y", reference_to("U"))]);
    generic.generics.push(GenericBinding { name: "T".to_string(), nature: TypeNature::Any });
    generic.return_type = Some(reference_to("T"));
    unit.units.push(generic);
    pre_process(&mut unit, &mut IdProvider::starting_at(0));
    let vars = &unit.units[0].variable_blocks[0].variables;
    assert_eq!(referenced(&vars[0].data_type), "__gen__T");
    assert_eq!(referenced(&vars[1].data_type), "U");
    assert_eq!(referenced(unit.units[0].return_type.as_ref().unwrap()), "__gen__T");
    assert_eq!(type_names(&unit), vec!["__gen__T"]);
    match &unit.types[0].data_type {
        DataType::GenericType { generic_symbol, nature, .. } => {
            assert_eq!(generic_symbol, "T");
            assert_eq!(*nature, TypeNature::Any);
        }
        _ => panic!("expected a generic type"),
    }
    assert_eq!(unit.types[0].scope, Some("gen".to_string()));
}

#[test]
fn struct_members_and_array_elements_of_declared_types() {
    let mut unit = CompilationUnit::default();
    unit.types.push(declared(
        "S",
        DataType::StructType {
            name: Some("S".to_string()),
            variables: vec![variable("m", defined(array_of(reference_to("INT")), loc(5, 6)))],
        },
    ));
    unit.types.push(declared(
        "A",
        DataType::ArrayType {
            name: Some("A".to_string()),
            bounds: range_bounds(),
            referenced_type: Box::new(defined(string_type(), loc(8, 9))),
        },
    ));
    pre_process(&mut unit, &mut IdProvider::starting_at(0));
    assert_eq!(type_names(&unit), vec!["S", "A", "__S_m", "__A"]);
    match &unit.types[0].data_type {
        DataType::StructType { variables, .. } => assert_eq!(referenced(&variables[0].data_type), "__S_m"),
        _ => panic!("expected a struct"),
    }
    assert_eq!(referenced(inner_of(&unit.types[1].data_type)), "__A");
    assert_eq!(inner_of(&unit.types[1].data_type).get_location(), SourceRange::undefined());
}

fn enum_assignment(e: &AstStatement) -> (&str, usize, usize, &AstStatement) {
    match e {
        AstStatement::Assignment { id, left, right } => match left.as_ref() {
            AstStatement::Reference { name, id: ref_id, .. } => (name.as_str(), *id, *ref_id, right.as_ref()),
            _ => panic!("expected a name"),
        },
        _ => panic!("expected an assignment"),
    }
}

#[test]
fn enum_elements_get_their_values() {
    let elements = AstStatement::ExpressionList {
        expressions: vec![
            AstStatement::Reference { name: "a".to_string(), location: loc(1, 2), id: 0 },
            AstStatement::Reference { name: "b".to_string(), location: loc(3, 4), id: 0 },
            AstStatement::Assignment {
                left: Box::new(AstStatement::Reference { name: "c".to_string(), location: loc(5, 6), id: 0 }),
                right: Box::new(AstStatement::LiteralInteger { value: 10, location: loc(7, 9), id: 0 }),
                id: 0,
            },
        ],
        id: 0,
    };
    let mut unit = CompilationUnit::default();
    unit.types.push(declared("E", DataType::EnumType { name: Some("E".to_string()), elements }));
    let mut ids = IdProvider::starting_at(100);
    pre_process(&mut unit, &mut ids);
    let (list, list_id) = match &unit.types[0].data_type {
        DataType::EnumType { elements: AstStatement::ExpressionList { expressions, id }, .. } => (expressions, *id),
        _ => panic!("expected an enumeration with a list"),
    };
    assert_eq!(list.len(), 3);
    // a := 0
    let (name, id, ref_id, value) = enum_assignment(&list[0]);
    assert_eq!((name, id, ref_id), ("a", 101, 102));
    assert!(matches!(value, AstStatement::LiteralInteger { value: 0, id: 100, .. }));
    // b := E#a + 1
    let (name, id, ref_id, value) = enum_assignment(&list[1]);
    assert_eq!((name, id, ref_id), ("b", 107, 108));
    match value {
        AstStatement::BinaryExpression { operator: Operator::Plus, left, right, id: 103 } => {
            match left.as_ref() {
                AstStatement::CastStatement { target, type_identifier, id: 105, location } => {
                    assert_eq!(type_identifier, "E");
                    assert_eq!(*location, loc(3, 4));
                    assert!(matches!(target.as_ref(), AstStatement::Reference { name, id: 104, .. } if name == "a"));
                }
                _ => panic!("expected a cast"),
            }
            assert!(matches!(right.as_ref(), AstStatement::LiteralInteger { value: 1, id: 106, .. }));
        }
        _ => panic!("expected a sum"),
    }
    // c := 10 keeps its value
    let (name, id, ref_id, value) = enum_assignment(&list[2]);
    assert_eq!((name, id, ref_id), ("c", 109, 110));
    assert!(matches!(value, AstStatement::LiteralInteger { value: 10, id: 0, .. }));
    assert_eq!(list[2].get_location(), loc(5, 9));
    assert_eq!(list_id, 111);
    assert_eq!(ids.peek(), 112);
}

#[test]
fn empty_enums_get_an_empty_list() {
    let mut unit = CompilationUnit::default();
    unit.types.push(declared(
        "E",
        DataType::EnumType {
            name: Some("E".to_string()),
            elements: AstStatement::EmptyStatement { location: loc(0, 0), id: 0 },
        },
    ));
    let mut ids = IdProvider::starting_at(7);
    pre_process(&mut unit, &mut ids);
    assert!(matches!(
        &unit.types[0].data_type,
        DataType::EnumType { elements: AstStatement::ExpressionList { expressions, id: 7 }, .. } if expressions.is_empty()
    ));
    assert_eq!(ids.peek(), 8);
}

#[test]
fn unnamed_enums_keep_their_elements() {
    let mut unit = CompilationUnit::default();
    unit.types.push(declared(
        "",
        DataType::EnumType {
            name: None,
            elements: AstStatement::Reference { name: "a".to_string(), location: loc(0, 1), id: 3 },
        },
    ));
    let mut ids = IdProvider::starting_at(7);
    pre_process(&mut unit, &mut ids);
    assert!(matches!(
        &unit.types[0].data_type,
        DataType::EnumType { elements: AstStatement::Reference { id: 3, .. }, name: None }
    ));
    assert_eq!(ids.peek(), 7);
}
