//! What the text of statements and declarations shows, field by field.
use vstd::prelude::*;

use crate::ast::debug_text::{
    bool_text, comma_joined, debug_all, debug_of, direct_access_name, field_text, list_text,
    operator_name, option_text, record1, record2, record_text, str_debug_text,
};
use crate::ast::declaration_text::{
    block_debug, block_type_name, blocks_debug, declaration_debug, name_option_text, pou_debug,
    pou_type_text, statement_option_text, type_debug, user_type_debug, variable_debug,
    variables_debug,
};
use crate::ast::{
    AstId, AstStatement, DataType, DataTypeDeclaration, DirectAccess, Operator, Pou, PouType,
    SourceRange, TypeNature, UserTypeDeclaration, Variable, VariableBlock, VariableBlockType,
};
use crate::text::int_decimal;

verus! {

/// The text of an assignment shows the text of its left side under `left`
/// and that of its right side under `right`.
pub proof fn lemma_assignment_text(left: AstStatement, right: AstStatement, id: AstId)
    ensures
        debug_of(
            (AstStatement::Assignment { left: Box::new(left), right: Box::new(right), id }),
        ) == "Assignment { left: "@ + debug_of(left) + ", right: "@ + debug_of(right) + " }"@,
{
    reveal_strlit("Assignment { left: ");
    reveal_strlit(", right: ");
    reveal_strlit(" }");
    reveal_strlit("Assignment");
    reveal_strlit(" { ");
    reveal_strlit(", ");
    reveal_strlit(": ");
    reveal_strlit("left");
    reveal_strlit("right");
    let fields = seq![field_text("left"@, debug_of(left)), field_text("right"@, debug_of(right))];
    assert(fields.drop_last() =~= seq![fields[0]]);
    assert(comma_joined(seq![fields[0]]) == fields[0]);
    assert(comma_joined(fields) == fields[0] + ", "@ + fields[1]);
    assert(debug_of(
        (AstStatement::Assignment { left: Box::new(left), right: Box::new(right), id }),
    ) =~= "Assignment { left: "@ + debug_of(left) + ", right: "@ + debug_of(right) + " }"@);
}

/// A record of two fields is written `Name { first: .., second: .. }`.
proof fn lemma_record2_form(
    name: Seq<char>,
    f1: Seq<char>,
    v1: Seq<char>,
    f2: Seq<char>,
    v2: Seq<char>,
)
    ensures
        record2(name, f1, v1, f2, v2) == name + " { "@ + f1 + ": "@ + v1 + ", "@ + f2 + ": "@
            + v2 + " }"@,
{
    let fields = seq![field_text(f1, v1), field_text(f2, v2)];
    assert(fields.drop_last() =~= seq![fields[0]]);
    assert(comma_joined(seq![fields[0]]) == fields[0]);
    assert(comma_joined(fields) == fields[0] + ", "@ + fields[1]);
    assert(record2(name, f1, v1, f2, v2) =~= name + " { "@ + f1 + ": "@ + v1 + ", "@ + f2 + ": "@
        + v2 + " }"@);
}

/// Each kind of variable block is written as the name of its kind, and no
/// two kinds share a name.
pub proof fn lemma_block_type_names(t: VariableBlockType)
    ensures
        (t == VariableBlockType::Local) <==> (block_type_name(t) == seq!['L', 'o', 'c', 'a', 'l']),
        (t == VariableBlockType::Temp) <==> (block_type_name(t) == seq!['T', 'e', 'm', 'p']),
        (t == VariableBlockType::Input) <==> (block_type_name(t) == seq!['I', 'n', 'p', 'u', 't']),
        (t == VariableBlockType::Output) <==> (block_type_name(t) == seq!['O', 'u', 't', 'p', 'u', 't']),
        (t == VariableBlockType::Global) <==> (block_type_name(t) == seq!['G', 'l', 'o', 'b', 'a', 'l']),
        (t == VariableBlockType::InOut) <==> (block_type_name(t) == seq!['I', 'n', 'O', 'u', 't']),
{
    reveal_strlit("Local");
    reveal_strlit("Temp");
    reveal_strlit("Input");
    reveal_strlit("Output");
    reveal_strlit("Global");
    reveal_strlit("InOut");
    assert(block_type_name(t) =~= match t {
        VariableBlockType::Local => seq!['L', 'o', 'c', 'a', 'l'],
        VariableBlockType::Temp => seq!['T', 'e', 'm', 'p'],
        VariableBlockType::Input => seq!['I', 'n', 'p', 'u', 't'],
        VariableBlockType::Output => seq!['O', 'u', 't', 'p', 'u', 't'],
        VariableBlockType::Global => seq!['G', 'l', 'o', 'b', 'a', 'l'],
        VariableBlockType::InOut => seq!['I', 'n', 'O', 'u', 't'],
    });
}

/// The text of a variable block shows its variables under `variables` and
/// the name of its kind under `variable_block_type`.
pub proof fn lemma_block_text(b: VariableBlock)
    ensures
        block_debug(b) == "VariableBlock { variables: "@ + list_text(variables_debug(b.variables@))
            + ", variable_block_type: "@ + block_type_name(b.variable_block_type) + " }"@,
{
    lemma_record2_form(
        "VariableBlock"@,
        "variables"@,
        list_text(variables_debug(b.variables@)),
        "variable_block_type"@,
        block_type_name(b.variable_block_type),
    );
    reveal_strlit("VariableBlock { variables: ");
    reveal_strlit(", variable_block_type: ");
    reveal_strlit(" }");
    reveal_strlit("VariableBlock");
    reveal_strlit(" { ");
    reveal_strlit(", ");
    reveal_strlit(": ");
    reveal_strlit("variables");
    reveal_strlit("variable_block_type");
    assert(block_debug(b) =~= "VariableBlock { variables: "@ + list_text(
        variables_debug(b.variables@),
    ) + ", variable_block_type: "@ + block_type_name(b.variable_block_type) + " }"@);
}

/// Each kind of POU is written as the name of its kind; a method shows its
/// owner class too.
pub proof fn lemma_pou_type_names(t: PouType)
    ensures
        (t == PouType::Program) <==> (pou_type_text(t) == seq!['P', 'r', 'o', 'g', 'r', 'a', 'm']),
        (t == PouType::Function) <==> (pou_type_text(t) == seq!['F', 'u', 'n', 'c', 't', 'i', 'o', 'n']),
        (t == PouType::FunctionBlock) <==> (pou_type_text(t) == seq!['F', 'u', 'n', 'c', 't', 'i', 'o', 'n', 'B', 'l', 'o', 'c', 'k']),
        (t == PouType::Action) <==> (pou_type_text(t) == seq!['A', 'c', 't', 'i', 'o', 'n']),
        (t == PouType::Class) <==> (pou_type_text(t) == seq!['C', 'l', 'a', 's', 's']),
        t is Method ==> pou_type_text(t) == seq!['M', 'e', 't', 'h', 'o', 'd', ' ', '{', ' ', 'o', 'w', 'n', 'e', 'r', '_', 'c', 'l', 'a', 's', 's', ':', ' '] + str_debug_text(t->owner_class@)
            + seq![' ', '}'],
{
    reveal_strlit("Program");
    reveal_strlit("Function");
    reveal_strlit("FunctionBlock");
    reveal_strlit("Action");
    reveal_strlit("Class");
    reveal_strlit("Method");
    reveal_strlit(" { ");
    reveal_strlit(": ");
    reveal_strlit("owner_class");
    reveal_strlit(" }");
    match t {
        PouType::Method { owner_class } => {
            let fields = seq![field_text("owner_class"@, str_debug_text(owner_class@))];
            assert(comma_joined(fields) == fields[0]);
            assert(pou_type_text(t) =~= seq!['M', 'e', 't', 'h', 'o', 'd', ' ', '{', ' ', 'o', 'w', 'n', 'e', 'r', '_', 'c', 'l', 'a', 's', 's', ':', ' '] + str_debug_text(owner_class@) + seq![' ', '}']);
        },
        _ => {
            assert(pou_type_text(t) =~= match t {
                PouType::Program => seq!['P', 'r', 'o', 'g', 'r', 'a', 'm'],
                PouType::Function => seq!['F', 'u', 'n', 'c', 't', 'i', 'o', 'n'],
                PouType::FunctionBlock => seq!['F', 'u', 'n', 'c', 't', 'i', 'o', 'n', 'B', 'l', 'o', 'c', 'k'],
                PouType::Action => seq!['A', 'c', 't', 'i', 'o', 'n'],
                PouType::Class => seq!['C', 'l', 'a', 's', 's'],
                PouType::Method { .. } => seq![],
            });
        },
    }
}

/// A record of one field is written `Name { field: .. }`.
proof fn lemma_record1_form(name: Seq<char>, f1: Seq<char>, v1: Seq<char>)
    ensures
        record1(name, f1, v1) == name + " { "@ + f1 + ": "@ + v1 + " }"@,
{
    let fields = seq![field_text(f1, v1)];
    assert(comma_joined(fields) == fields[0]);
    assert(record1(name, f1, v1) =~= name + " { "@ + f1 + ": "@ + v1 + " }"@);
}

/// A record of three fields is written `Name { first: .., second: .., third: .. }`.
proof fn lemma_record3_form(
    name: Seq<char>,
    f1: Seq<char>,
    v1: Seq<char>,
    f2: Seq<char>,
    v2: Seq<char>,
    f3: Seq<char>,
    v3: Seq<char>,
)
    ensures
        record_text(name, seq![field_text(f1, v1), field_text(f2, v2), field_text(f3, v3)])
            == name + " { "@ + f1 + ": "@ + v1 + ", "@ + f2 + ": "@ + v2 + ", "@ + f3 + ": "@
            + v3 + " }"@,
{
    let fields = seq![field_text(f1, v1), field_text(f2, v2), field_text(f3, v3)];
    assert(fields.drop_last() =~= seq![fields[0], fields[1]]);
    assert(seq![fields[0], fields[1]].drop_last() =~= seq![fields[0]]);
    assert(comma_joined(seq![fields[0]]) == fields[0]);
    assert(comma_joined(seq![fields[0], fields[1]]) == fields[0] + ", "@ + fields[1]);
    assert(comma_joined(fields) == fields[0] + ", "@ + fields[1] + ", "@ + fields[2]);
    assert(record_text(name, fields) =~= name + " { "@ + f1 + ": "@ + v1 + ", "@ + f2 + ": "@
        + v2 + ", "@ + f3 + ": "@ + v3 + " }"@);
}

/// The text of an output assignment shows the text of its left side under
/// `left` and that of its right side under `right`.
pub proof fn lemma_output_assignment_text(left: AstStatement, right: AstStatement, id: AstId)
    ensures
        debug_of(
            (AstStatement::OutputAssignment { left: Box::new(left), right: Box::new(right), id }),
        ) == "OutputAssignment { left: "@ + debug_of(left) + ", right: "@ + debug_of(right) + " }"@,
{
    lemma_record2_form("OutputAssignment"@, "left"@, debug_of(left), "right"@, debug_of(right));
    reveal_strlit("OutputAssignment { left: ");
    reveal_strlit(", right: ");
    reveal_strlit(" }");
    reveal_strlit("OutputAssignment");
    reveal_strlit(" { ");
    reveal_strlit(", ");
    reveal_strlit(": ");
    reveal_strlit("left");
    reveal_strlit("right");
    assert(debug_of(
        (AstStatement::OutputAssignment { left: Box::new(left), right: Box::new(right), id }),
    ) =~= "OutputAssignment { left: "@ + debug_of(left) + ", right: "@ + debug_of(right) + " }"@);
}

/// The text of a range shows its start under `start` and its end under `end`.
pub proof fn lemma_range_text(start: AstStatement, end: AstStatement, id: AstId)
    ensures
        debug_of(
            (AstStatement::RangeStatement { start: Box::new(start), end: Box::new(end), id }),
        ) == "RangeStatement { start: "@ + debug_of(start) + ", end: "@ + debug_of(end) + " }"@,
{
    lemma_record2_form("RangeStatement"@, "start"@, debug_of(start), "end"@, debug_of(end));
    reveal_strlit("RangeStatement { start: ");
    reveal_strlit(", end: ");
    reveal_strlit(" }");
    reveal_strlit("RangeStatement");
    reveal_strlit(" { ");
    reveal_strlit(", ");
    reveal_strlit(": ");
    reveal_strlit("start");
    reveal_strlit("end");
    assert(debug_of(
        (AstStatement::RangeStatement { start: Box::new(start), end: Box::new(end), id }),
    ) =~= "RangeStatement { start: "@ + debug_of(start) + ", end: "@ + debug_of(end) + " }"@);
}

/// The text of an array access shows the accessed reference under `reference`
/// and the index under `access`.
pub proof fn lemma_array_access_text(reference: AstStatement, access: AstStatement, id: AstId)
    ensures
        debug_of(
            (AstStatement::ArrayAccess { reference: Box::new(reference), access: Box::new(access), id }),
        ) == "ArrayAccess { reference: "@ + debug_of(reference) + ", access: "@ + debug_of(access) + " }"@,
{
    lemma_record2_form("ArrayAccess"@, "reference"@, debug_of(reference), "access"@, debug_of(access));
    reveal_strlit("ArrayAccess { reference: ");
    reveal_strlit(", access: ");
    reveal_strlit(" }");
    reveal_strlit("ArrayAccess");
    reveal_strlit(" { ");
    reveal_strlit(", ");
    reveal_strlit(": ");
    reveal_strlit("reference");
    reveal_strlit("access");
    assert(debug_of(
        (AstStatement::ArrayAccess { reference: Box::new(reference), access: Box::new(access), id }),
    ) =~= "ArrayAccess { reference: "@ + debug_of(reference) + ", access: "@ + debug_of(access) + " }"@);
}

/// The text of a unary expression shows the name of its operator under
/// `operator` and its operand under `value`.
pub proof fn lemma_unary_text(operator: Operator, value: AstStatement, location: SourceRange, id: AstId)
    ensures
        debug_of(
            (AstStatement::UnaryExpression { operator, value: Box::new(value), location, id }),
        ) == "UnaryExpression { operator: "@ + operator_name(operator) + ", value: "@ + debug_of(value) + " }"@,
{
    lemma_record2_form("UnaryExpression"@, "operator"@, operator_name(operator), "value"@, debug_of(value));
    reveal_strlit("UnaryExpression { operator: ");
    reveal_strlit(", value: ");
    reveal_strlit(" }");
    reveal_strlit("UnaryExpression");
    reveal_strlit(" { ");
    reveal_strlit(", ");
    reveal_strlit(": ");
    reveal_strlit("operator");
    reveal_strlit("value");
    assert(debug_of(
        (AstStatement::UnaryExpression { operator, value: Box::new(value), location, id }),
    ) =~= "UnaryExpression { operator: "@ + operator_name(operator) + ", value: "@ + debug_of(value) + " }"@);
}

/// The text of a cast shows the name of the type under `type_name`, then the
/// cast statement under `target`.
pub proof fn lemma_cast_text(target: AstStatement, type_identifier: String, location: SourceRange, id: AstId)
    ensures
        debug_of(
            (AstStatement::CastStatement { target: Box::new(target), type_identifier, location, id }),
        ) == "CastStatement { type_name: "@ + str_debug_text(type_identifier@) + ", target: "@ + debug_of(target) + " }"@,
{
    lemma_record2_form("CastStatement"@, "type_name"@, str_debug_text(type_identifier@), "target"@, debug_of(target));
    reveal_strlit("CastStatement { type_name: ");
    reveal_strlit(", target: ");
    reveal_strlit(" }");
    reveal_strlit("CastStatement");
    reveal_strlit(" { ");
    reveal_strlit(", ");
    reveal_strlit(": ");
    reveal_strlit("type_name");
    reveal_strlit("target");
    assert(debug_of(
        (AstStatement::CastStatement { target: Box::new(target), type_identifier, location, id }),
    ) =~= "CastStatement { type_name: "@ + str_debug_text(type_identifier@) + ", target: "@ + debug_of(target) + " }"@);
}

/// The text of a multiplied statement shows the multiplier in decimal under
/// `multiplier` and the repeated element under `element`.
pub proof fn lemma_multiplied_text(multiplier: u32, element: AstStatement, location: SourceRange, id: AstId)
    ensures
        debug_of(
            (AstStatement::MultipliedStatement { multiplier, element: Box::new(element), location, id }),
        ) == "MultipliedStatement { multiplier: "@ + int_decimal(multiplier as int) + ", element: "@ + debug_of(element) + " }"@,
{
    lemma_record2_form("MultipliedStatement"@, "multiplier"@, int_decimal(multiplier as int), "element"@, debug_of(element));
    reveal_strlit("MultipliedStatement { multiplier: ");
    reveal_strlit(", element: ");
    reveal_strlit(" }");
    reveal_strlit("MultipliedStatement");
    reveal_strlit(" { ");
    reveal_strlit(", ");
    reveal_strlit(": ");
    reveal_strlit("multiplier");
    reveal_strlit("element");
    assert(debug_of(
        (AstStatement::MultipliedStatement { multiplier, element: Box::new(element), location, id }),
    ) =~= "MultipliedStatement { multiplier: "@ + int_decimal(multiplier as int) + ", element: "@ + debug_of(element) + " }"@);
}

/// The text of a WHILE loop shows its condition under `condition` and the
/// list of its statements under `body`.
pub proof fn lemma_while_text(condition: AstStatement, body: Vec<AstStatement>, location: SourceRange, id: AstId)
    ensures
        debug_of(
            (AstStatement::WhileLoopStatement { condition: Box::new(condition), body, location, id }),
        ) == "WhileLoopStatement { condition: "@ + debug_of(condition) + ", body: "@ + list_text(debug_all(body@)) + " }"@,
{
    lemma_record2_form("WhileLoopStatement"@, "condition"@, debug_of(condition), "body"@, list_text(debug_all(body@)));
    reveal_strlit("WhileLoopStatement { condition: ");
    reveal_strlit(", body: ");
    reveal_strlit(" }");
    reveal_strlit("WhileLoopStatement");
    reveal_strlit(" { ");
    reveal_strlit(", ");
    reveal_strlit(": ");
    reveal_strlit("condition");
    reveal_strlit("body");
    assert(debug_of(
        (AstStatement::WhileLoopStatement { condition: Box::new(condition), body, location, id }),
    ) =~= "WhileLoopStatement { condition: "@ + debug_of(condition) + ", body: "@ + list_text(debug_all(body@)) + " }"@);
}

/// The text of a REPEAT loop shows its condition under `condition` and the
/// list of its statements under `body`.
pub proof fn lemma_repeat_text(condition: AstStatement, body: Vec<AstStatement>, location: SourceRange, id: AstId)
    ensures
        debug_of(
            (AstStatement::RepeatLoopStatement { condition: Box::new(condition), body, location, id }),
        ) == "RepeatLoopStatement { condition: "@ + debug_of(condition) + ", body: "@ + list_text(debug_all(body@)) + " }"@,
{
    lemma_record2_form("RepeatLoopStatement"@, "condition"@, debug_of(condition), "body"@, list_text(debug_all(body@)));
    reveal_strlit("RepeatLoopStatement { condition: ");
    reveal_strlit(", body: ");
    reveal_strlit(" }");
    reveal_strlit("RepeatLoopStatement");
    reveal_strlit(" { ");
    reveal_strlit(", ");
    reveal_strlit(": ");
    reveal_strlit("condition");
    reveal_strlit("body");
    assert(debug_of(
        (AstStatement::RepeatLoopStatement { condition: Box::new(condition), body, location, id }),
    ) =~= "RepeatLoopStatement { condition: "@ + debug_of(condition) + ", body: "@ + list_text(debug_all(body@)) + " }"@);
}

/// The text of an integer literal shows its value in decimal under `value`.
pub proof fn lemma_integer_text(value: i128, location: SourceRange, id: AstId)
    ensures
        debug_of(
            (AstStatement::LiteralInteger { value, location, id }),
        ) == "LiteralInteger { value: "@ + int_decimal(value as int) + " }"@,
{
    lemma_record1_form("LiteralInteger"@, "value"@, int_decimal(value as int));
    reveal_strlit("LiteralInteger { value: ");
    reveal_strlit(" }");
    reveal_strlit("LiteralInteger");
    reveal_strlit(" { ");
    reveal_strlit(", ");
    reveal_strlit(": ");
    reveal_strlit("value");
    assert(debug_of(
        (AstStatement::LiteralInteger { value, location, id }),
    ) =~= "LiteralInteger { value: "@ + int_decimal(value as int) + " }"@);
}

/// The text of a reference shows its name, quoted, under `name`.
pub proof fn lemma_reference_text(name: String, location: SourceRange, id: AstId)
    ensures
        debug_of(
            (AstStatement::Reference { name, location, id }),
        ) == "Reference { name: "@ + str_debug_text(name@) + " }"@,
{
    lemma_record1_form("Reference"@, "name"@, str_debug_text(name@));
    reveal_strlit("Reference { name: ");
    reveal_strlit(" }");
    reveal_strlit("Reference");
    reveal_strlit(" { ");
    reveal_strlit(", ");
    reveal_strlit(": ");
    reveal_strlit("name");
    assert(debug_of(
        (AstStatement::Reference { name, location, id }),
    ) =~= "Reference { name: "@ + str_debug_text(name@) + " }"@);
}

/// The text of a boolean literal shows `true` or `false` under `value`, as
/// its value is.
pub proof fn lemma_bool_text(value: bool, location: SourceRange, id: AstId)
    ensures
        debug_of(
            (AstStatement::LiteralBool { value, location, id }),
        ) == "LiteralBool { value: "@ + (if value { seq!['t', 'r', 'u', 'e'] } else { seq!['f', 'a', 'l', 's', 'e'] }) + " }"@,
{
    lemma_record1_form("LiteralBool"@, "value"@, (if value { seq!['t', 'r', 'u', 'e'] } else { seq!['f', 'a', 'l', 's', 'e'] }));
    reveal_strlit("LiteralBool { value: ");
    reveal_strlit(" }");
    reveal_strlit("LiteralBool");
    reveal_strlit(" { ");
    reveal_strlit(", ");
    reveal_strlit(": ");
    reveal_strlit("value");
    reveal_strlit("true");
    reveal_strlit("false");
    assert(bool_text(value) =~= (if value { seq!['t', 'r', 'u', 'e'] } else { seq!['f', 'a', 'l', 's', 'e'] }));
    assert(debug_of(
        (AstStatement::LiteralBool { value, location, id }),
    ) =~= "LiteralBool { value: "@ + (if value { seq!['t', 'r', 'u', 'e'] } else { seq!['f', 'a', 'l', 's', 'e'] }) + " }"@);
}

/// The text of a dereference shows the dereferenced statement under
/// `reference`.
pub proof fn lemma_pointer_access_text(reference: AstStatement, id: AstId)
    ensures
        debug_of(
            (AstStatement::PointerAccess { reference: Box::new(reference), id }),
        ) == "PointerAccess { reference: "@ + debug_of(reference) + " }"@,
{
    lemma_record1_form("PointerAccess"@, "reference"@, debug_of(reference));
    reveal_strlit("PointerAccess { reference: ");
    reveal_strlit(" }");
    reveal_strlit("PointerAccess");
    reveal_strlit(" { ");
    reveal_strlit(", ");
    reveal_strlit(": ");
    reveal_strlit("reference");
    assert(debug_of(
        (AstStatement::PointerAccess { reference: Box::new(reference), id }),
    ) =~= "PointerAccess { reference: "@ + debug_of(reference) + " }"@);
}

/// The text of a case condition shows the condition under `condition`.
pub proof fn lemma_case_condition_text(condition: AstStatement, id: AstId)
    ensures
        debug_of(
            (AstStatement::CaseCondition { condition: Box::new(condition), id }),
        ) == "CaseCondition { condition: "@ + debug_of(condition) + " }"@,
{
    lemma_record1_form("CaseCondition"@, "condition"@, debug_of(condition));
    reveal_strlit("CaseCondition { condition: ");
    reveal_strlit(" }");
    reveal_strlit("CaseCondition");
    reveal_strlit(" { ");
    reveal_strlit(", ");
    reveal_strlit(": ");
    reveal_strlit("condition");
    assert(debug_of(
        (AstStatement::CaseCondition { condition: Box::new(condition), id }),
    ) =~= "CaseCondition { condition: "@ + debug_of(condition) + " }"@);
}

/// The text of a binary expression shows the name of its operator under
/// `operator`, its left operand under `left` and its right operand under `right`.
pub proof fn lemma_binary_text(operator: Operator, left: AstStatement, right: AstStatement, id: AstId)
    ensures
        debug_of(
            (AstStatement::BinaryExpression { operator, left: Box::new(left), right: Box::new(right), id }),
        ) == "BinaryExpression { operator: "@ + operator_name(operator) + ", left: "@ + debug_of(left) + ", right: "@ + debug_of(right) + " }"@,
{
    lemma_record3_form(
        "BinaryExpression"@,
        "operator"@,
        operator_name(operator),
        "left"@,
        debug_of(left),
        "right"@,
        debug_of(right),
    );
    reveal_strlit("BinaryExpression { operator: ");
    reveal_strlit(", left: ");
    reveal_strlit(", right: ");
    reveal_strlit(" }");
    reveal_strlit("BinaryExpression");
    reveal_strlit(" { ");
    reveal_strlit(", ");
    reveal_strlit(": ");
    reveal_strlit("operator");
    reveal_strlit("left");
    reveal_strlit("right");
    assert(debug_of(
        (AstStatement::BinaryExpression { operator, left: Box::new(left), right: Box::new(right), id }),
    ) =~= "BinaryExpression { operator: "@ + operator_name(operator) + ", left: "@ + debug_of(left) + ", right: "@ + debug_of(right) + " }"@);
}

/// Each operator is written as its own name, and no two operators share a
/// name.
pub proof fn lemma_operator_names(op: Operator)
    ensures
        (op == Operator::Plus) <==> (operator_name(op) == seq!['P', 'l', 'u', 's']),
        (op == Operator::Minus) <==> (operator_name(op) == seq!['M', 'i', 'n', 'u', 's']),
        (op == Operator::Multiplication) <==> (operator_name(op) == seq!['M', 'u', 'l', 't', 'i', 'p', 'l', 'i', 'c', 'a', 't', 'i', 'o', 'n']),
        (op == Operator::Division) <==> (operator_name(op) == seq!['D', 'i', 'v', 'i', 's', 'i', 'o', 'n']),
        (op == Operator::Equal) <==> (operator_name(op) == seq!['E', 'q', 'u', 'a', 'l']),
        (op == Operator::NotEqual) <==> (operator_name(op) == seq!['N', 'o', 't', 'E', 'q', 'u', 'a', 'l']),
        (op == Operator::Modulo) <==> (operator_name(op) == seq!['M', 'o', 'd', 'u', 'l', 'o']),
        (op == Operator::Less) <==> (operator_name(op) == seq!['L', 'e', 's', 's']),
        (op == Operator::Greater) <==> (operator_name(op) == seq!['G', 'r', 'e', 'a', 't', 'e', 'r']),
        (op == Operator::LessOrEqual) <==> (operator_name(op) == seq!['L', 'e', 's', 's', 'O', 'r', 'E', 'q', 'u', 'a', 'l']),
        (op == Operator::GreaterOrEqual) <==> (operator_name(op) == seq!['G', 'r', 'e', 'a', 't', 'e', 'r', 'O', 'r', 'E', 'q', 'u', 'a', 'l']),
        (op == Operator::Not) <==> (operator_name(op) == seq!['N', 'o', 't']),
        (op == Operator::And) <==> (operator_name(op) == seq!['A', 'n', 'd']),
        (op == Operator::Or) <==> (operator_name(op) == seq!['O', 'r']),
        (op == Operator::Xor) <==> (operator_name(op) == seq!['X', 'o', 'r']),
        (op == Operator::Address) <==> (operator_name(op) == seq!['A', 'd', 'd', 'r', 'e', 's', 's']),
{
    reveal_strlit("Plus");
    reveal_strlit("Minus");
    reveal_strlit("Multiplication");
    reveal_strlit("Division");
    reveal_strlit("Equal");
    reveal_strlit("NotEqual");
    reveal_strlit("Modulo");
    reveal_strlit("Less");
    reveal_strlit("Greater");
    reveal_strlit("LessOrEqual");
    reveal_strlit("GreaterOrEqual");
    reveal_strlit("Not");
    reveal_strlit("And");
    reveal_strlit("Or");
    reveal_strlit("Xor");
    reveal_strlit("Address");
    assert(operator_name(op) =~= match op {
        Operator::Plus => seq!['P', 'l', 'u', 's'],
        Operator::Minus => seq!['M', 'i', 'n', 'u', 's'],
        Operator::Multiplication => seq!['M', 'u', 'l', 't', 'i', 'p', 'l', 'i', 'c', 'a', 't', 'i', 'o', 'n'],
        Operator::Division => seq!['D', 'i', 'v', 'i', 's', 'i', 'o', 'n'],
        Operator::Equal => seq!['E', 'q', 'u', 'a', 'l'],
        Operator::NotEqual => seq!['N', 'o', 't', 'E', 'q', 'u', 'a', 'l'],
        Operator::Modulo => seq!['M', 'o', 'd', 'u', 'l', 'o'],
        Operator::Less => seq!['L', 'e', 's', 's'],
        Operator::Greater => seq!['G', 'r', 'e', 'a', 't', 'e', 'r'],
        Operator::LessOrEqual => seq!['L', 'e', 's', 's', 'O', 'r', 'E', 'q', 'u', 'a', 'l'],
        Operator::GreaterOrEqual => seq!['G', 'r', 'e', 'a', 't', 'e', 'r', 'O', 'r', 'E', 'q', 'u', 'a', 'l'],
        Operator::Not => seq!['N', 'o', 't'],
        Operator::And => seq!['A', 'n', 'd'],
        Operator::Or => seq!['O', 'r'],
        Operator::Xor => seq!['X', 'o', 'r'],
        Operator::Address => seq!['A', 'd', 'd', 'r', 'e', 's', 's'],
    });
}

/// Each size of direct access is written as its own name, and no two share a
/// name.
pub proof fn lemma_direct_access_names(a: DirectAccess)
    ensures
        (a == DirectAccess::Bit) <==> (direct_access_name(a) == seq!['B', 'i', 't']),
        (a == DirectAccess::Byte) <==> (direct_access_name(a) == seq!['B', 'y', 't', 'e']),
        (a == DirectAccess::Word) <==> (direct_access_name(a) == seq!['W', 'o', 'r', 'd']),
        (a == DirectAccess::DWord) <==> (direct_access_name(a) == seq!['D', 'W', 'o', 'r', 'd']),
{
    reveal_strlit("Bit");
    reveal_strlit("Byte");
    reveal_strlit("Word");
    reveal_strlit("DWord");
    assert(direct_access_name(a) =~= match a {
        DirectAccess::Bit => seq!['B', 'i', 't'],
        DirectAccess::Byte => seq!['B', 'y', 't', 'e'],
        DirectAccess::Word => seq!['W', 'o', 'r', 'd'],
        DirectAccess::DWord => seq!['D', 'W', 'o', 'r', 'd'],
    });
}

/// A list of statements is written with the text of each statement, in the
/// order of the statements.
pub proof fn lemma_statement_texts(items: Seq<AstStatement>)
    ensures
        debug_all(items).len() == items.len(),
        forall|k: int| 0 <= k < items.len() ==> #[trigger] debug_all(items)[k] == debug_of(items[k]),
    decreases items.len(),
{
    if items.len() > 0 {
        lemma_statement_texts(items.drop_last());
    }
}

/// A record of four fields is written
/// `Name { first: .., second: .., third: .., fourth: .. }`.
proof fn lemma_record4_form(
    name: Seq<char>,
    f1: Seq<char>,
    v1: Seq<char>,
    f2: Seq<char>,
    v2: Seq<char>,
    f3: Seq<char>,
    v3: Seq<char>,
    f4: Seq<char>,
    v4: Seq<char>,
)
    ensures
        record_text(
            name,
            seq![field_text(f1, v1), field_text(f2, v2), field_text(f3, v3), field_text(f4, v4)],
        ) == name + " { "@ + f1 + ": "@ + v1 + ", "@ + f2 + ": "@ + v2 + ", "@ + f3 + ": "@ + v3
            + ", "@ + f4 + ": "@ + v4 + " }"@,
{
    let fields = seq![field_text(f1, v1), field_text(f2, v2), field_text(f3, v3), field_text(f4, v4)];
    let three = seq![fields[0], fields[1], fields[2]];
    let two = seq![fields[0], fields[1]];
    assert(fields.drop_last() =~= three);
    assert(three.drop_last() =~= two);
    assert(two.drop_last() =~= seq![fields[0]]);
    assert(comma_joined(seq![fields[0]]) == fields[0]);
    assert(comma_joined(two) == fields[0] + ", "@ + fields[1]);
    assert(comma_joined(three) == fields[0] + ", "@ + fields[1] + ", "@ + fields[2]);
    assert(comma_joined(fields) == fields[0] + ", "@ + fields[1] + ", "@ + fields[2] + ", "@
        + fields[3]);
    assert(record_text(name, fields) =~= name + " { "@ + f1 + ": "@ + v1 + ", "@ + f2 + ": "@ + v2
        + ", "@ + f3 + ": "@ + v3 + ", "@ + f4 + ": "@ + v4 + " }"@);
}

/// An optional value is written `Some(..)` around its text, or `None`.
pub proof fn lemma_option_texts(o: Option<Seq<char>>)
    ensures
        o is None ==> option_text(o) == seq!['N', 'o', 'n', 'e'],
        o is Some ==> option_text(o) == seq!['S', 'o', 'm', 'e', '('] + o->0 + seq![')'],
{
    reveal_strlit("None");
    reveal_strlit("Some(");
    reveal_strlit(")");
    assert(o is None ==> option_text(o) =~= seq!['N', 'o', 'n', 'e']);
    assert(o is Some ==> option_text(o) =~= seq!['S', 'o', 'm', 'e', '('] + o->0 + seq![')']);
}

/// The text of a variable without an initializer shows its name, quoted, under
/// `name` and its declared type under `data_type`.
pub proof fn lemma_variable_text(v: Variable)
    requires
        v.initializer is None,
    ensures
        variable_debug(v) == "Variable { name: "@ + str_debug_text(v.name@) + ", data_type: "@ + declaration_debug(v.data_type) + " }"@,
{
    lemma_record2_form(
        "Variable"@,
        "name"@,
        str_debug_text(v.name@),
        "data_type"@,
        declaration_debug(v.data_type),
    );
    reveal_strlit("Variable { name: ");
    reveal_strlit(", data_type: ");
    reveal_strlit(" }");
    reveal_strlit("Variable");
    reveal_strlit(" { ");
    reveal_strlit(", ");
    reveal_strlit(": ");
    reveal_strlit("name");
    reveal_strlit("data_type");
    assert(variable_debug(v) =~= "Variable { name: "@ + str_debug_text(v.name@) + ", data_type: "@ + declaration_debug(v.data_type) + " }"@);
}

/// The text of a variable with an initializer shows its name, its declared
/// type and then its initializer under `initializer`.
pub proof fn lemma_initialized_variable_text(v: Variable)
    requires
        v.initializer is Some,
    ensures
        variable_debug(v) == "Variable { name: "@ + str_debug_text(v.name@) + ", data_type: "@ + declaration_debug(v.data_type) + ", initializer: "@ + statement_option_text(v.initializer) + " }"@,
{
    lemma_record3_form(
        "Variable"@,
        "name"@,
        str_debug_text(v.name@),
        "data_type"@,
        declaration_debug(v.data_type),
        "initializer"@,
        statement_option_text(v.initializer),
    );
    reveal_strlit("Variable { name: ");
    reveal_strlit(", data_type: ");
    reveal_strlit(", initializer: ");
    reveal_strlit(" }");
    reveal_strlit("Variable");
    reveal_strlit(" { ");
    reveal_strlit(", ");
    reveal_strlit(": ");
    reveal_strlit("name");
    reveal_strlit("data_type");
    reveal_strlit("initializer");
    assert(variable_debug(v) =~= "Variable { name: "@ + str_debug_text(v.name@) + ", data_type: "@ + declaration_debug(v.data_type) + ", initializer: "@ + statement_option_text(v.initializer) + " }"@);
}

/// The text of a top-level type declaration shows its type under `data_type`
/// and its optional initializer under `initializer`.
pub proof fn lemma_user_type_text(t: UserTypeDeclaration)
    ensures
        user_type_debug(t) == "UserTypeDeclaration { data_type: "@ + type_debug(t.data_type) + ", initializer: "@ + statement_option_text(t.initializer) + " }"@,
{
    lemma_record2_form(
        "UserTypeDeclaration"@,
        "data_type"@,
        type_debug(t.data_type),
        "initializer"@,
        statement_option_text(t.initializer),
    );
    reveal_strlit("UserTypeDeclaration { data_type: ");
    reveal_strlit(", initializer: ");
    reveal_strlit(" }");
    reveal_strlit("UserTypeDeclaration");
    reveal_strlit(" { ");
    reveal_strlit(", ");
    reveal_strlit(": ");
    reveal_strlit("data_type");
    reveal_strlit("initializer");
    assert(user_type_debug(t) =~= "UserTypeDeclaration { data_type: "@ + type_debug(t.data_type) + ", initializer: "@ + statement_option_text(t.initializer) + " }"@);
}

/// The text of a reference to a type shows the type's name, quoted, under
/// `referenced_type`.
pub proof fn lemma_type_reference_text(referenced_type: String, location: SourceRange)
    ensures
        declaration_debug((DataTypeDeclaration::DataTypeReference { referenced_type, location })) == "DataTypeReference { referenced_type: "@ + str_debug_text(referenced_type@) + " }"@,
{
    lemma_record1_form(
        "DataTypeReference"@,
        "referenced_type"@,
        str_debug_text(referenced_type@),
    );
    reveal_strlit("DataTypeReference { referenced_type: ");
    reveal_strlit(" }");
    reveal_strlit("DataTypeReference");
    reveal_strlit(" { ");
    reveal_strlit(", ");
    reveal_strlit(": ");
    reveal_strlit("referenced_type");
    assert(declaration_debug((DataTypeDeclaration::DataTypeReference { referenced_type, location })) =~= "DataTypeReference { referenced_type: "@ + str_debug_text(referenced_type@) + " }"@);
}

/// The text of an inline type definition shows the defined type under
/// `data_type`.
pub proof fn lemma_type_definition_text(data_type: DataType, location: SourceRange, scope: Option<String>)
    ensures
        declaration_debug((DataTypeDeclaration::DataTypeDefinition { data_type, location, scope })) == "DataTypeDefinition { data_type: "@ + type_debug(data_type) + " }"@,
{
    lemma_record1_form(
        "DataTypeDefinition"@,
        "data_type"@,
        type_debug(data_type),
    );
    reveal_strlit("DataTypeDefinition { data_type: ");
    reveal_strlit(" }");
    reveal_strlit("DataTypeDefinition");
    reveal_strlit(" { ");
    reveal_strlit(", ");
    reveal_strlit(": ");
    reveal_strlit("data_type");
    assert(declaration_debug((DataTypeDeclaration::DataTypeDefinition { data_type, location, scope })) =~= "DataTypeDefinition { data_type: "@ + type_debug(data_type) + " }"@);
}

/// The text of a struct type shows its optional name under `name` and the
/// list of its members under `variables`.
pub proof fn lemma_struct_type_text(name: Option<String>, variables: Vec<Variable>)
    ensures
        type_debug((DataType::StructType { name, variables })) == "StructType { name: "@ + name_option_text(name) + ", variables: "@ + list_text(variables_debug(variables@)) + " }"@,
{
    lemma_record2_form(
        "StructType"@,
        "name"@,
        name_option_text(name),
        "variables"@,
        list_text(variables_debug(variables@)),
    );
    reveal_strlit("StructType { name: ");
    reveal_strlit(", variables: ");
    reveal_strlit(" }");
    reveal_strlit("StructType");
    reveal_strlit(" { ");
    reveal_strlit(", ");
    reveal_strlit(": ");
    reveal_strlit("name");
    reveal_strlit("variables");
    assert(type_debug((DataType::StructType { name, variables })) =~= "StructType { name: "@ + name_option_text(name) + ", variables: "@ + list_text(variables_debug(variables@)) + " }"@);
}

/// The text of an enum type shows its optional name under `name` and its
/// elements under `elements`.
pub proof fn lemma_enum_type_text(name: Option<String>, elements: AstStatement)
    ensures
        type_debug((DataType::EnumType { name, elements })) == "EnumType { name: "@ + name_option_text(name) + ", elements: "@ + debug_of(elements) + " }"@,
{
    lemma_record2_form(
        "EnumType"@,
        "name"@,
        name_option_text(name),
        "elements"@,
        debug_of(elements),
    );
    reveal_strlit("EnumType { name: ");
    reveal_strlit(", elements: ");
    reveal_strlit(" }");
    reveal_strlit("EnumType");
    reveal_strlit(" { ");
    reveal_strlit(", ");
    reveal_strlit(": ");
    reveal_strlit("name");
    reveal_strlit("elements");
    assert(type_debug((DataType::EnumType { name, elements })) =~= "EnumType { name: "@ + name_option_text(name) + ", elements: "@ + debug_of(elements) + " }"@);
}

/// The text of a pointer type shows its optional name under `name` and the
/// type it points to under `referenced_type`.
pub proof fn lemma_pointer_type_text(name: Option<String>, referenced_type: DataTypeDeclaration)
    ensures
        type_debug((DataType::PointerType { name, referenced_type: Box::new(referenced_type) })) == "PointerType { name: "@ + name_option_text(name) + ", referenced_type: "@ + declaration_debug(referenced_type) + " }"@,
{
    lemma_record2_form(
        "PointerType"@,
        "name"@,
        name_option_text(name),
        "referenced_type"@,
        declaration_debug(referenced_type),
    );
    reveal_strlit("PointerType { name: ");
    reveal_strlit(", referenced_type: ");
    reveal_strlit(" }");
    reveal_strlit("PointerType");
    reveal_strlit(" { ");
    reveal_strlit(", ");
    reveal_strlit(": ");
    reveal_strlit("name");
    reveal_strlit("referenced_type");
    assert(type_debug((DataType::PointerType { name, referenced_type: Box::new(referenced_type) })) =~= "PointerType { name: "@ + name_option_text(name) + ", referenced_type: "@ + declaration_debug(referenced_type) + " }"@);
}

/// The text of an array type shows its optional name, its bounds under
/// `bounds` and the type of its elements under `referenced_type`.
pub proof fn lemma_array_type_text(name: Option<String>, bounds: AstStatement, referenced_type: DataTypeDeclaration)
    ensures
        type_debug((DataType::ArrayType { name, bounds, referenced_type: Box::new(referenced_type) })) == "ArrayType { name: "@ + name_option_text(name) + ", bounds: "@ + debug_of(bounds) + ", referenced_type: "@ + declaration_debug(referenced_type) + " }"@,
{
    lemma_record3_form(
        "ArrayType"@,
        "name"@,
        name_option_text(name),
        "bounds"@,
        debug_of(bounds),
        "referenced_type"@,
        declaration_debug(referenced_type),
    );
    reveal_strlit("ArrayType { name: ");
    reveal_strlit(", bounds: ");
    reveal_strlit(", referenced_type: ");
    reveal_strlit(" }");
    reveal_strlit("ArrayType");
    reveal_strlit(" { ");
    reveal_strlit(", ");
    reveal_strlit(": ");
    reveal_strlit("name");
    reveal_strlit("bounds");
    reveal_strlit("referenced_type");
    assert(type_debug((DataType::ArrayType { name, bounds, referenced_type: Box::new(referenced_type) })) =~= "ArrayType { name: "@ + name_option_text(name) + ", bounds: "@ + debug_of(bounds) + ", referenced_type: "@ + declaration_debug(referenced_type) + " }"@);
}

/// The text of a generic type shows its name under `name` and its symbol
/// under `generic_symbol`, both quoted.
pub proof fn lemma_generic_type_text(name: String, generic_symbol: String, nature: TypeNature)
    ensures
        type_debug((DataType::GenericType { name, generic_symbol, nature })) == "GenericType { name: "@ + str_debug_text(name@) + ", generic_symbol: "@ + str_debug_text(generic_symbol@) + " }"@,
{
    lemma_record2_form(
        "GenericType"@,
        "name"@,
        str_debug_text(name@),
        "generic_symbol"@,
        str_debug_text(generic_symbol@),
    );
    reveal_strlit("GenericType { name: ");
    reveal_strlit(", generic_symbol: ");
    reveal_strlit(" }");
    reveal_strlit("GenericType");
    reveal_strlit(" { ");
    reveal_strlit(", ");
    reveal_strlit(": ");
    reveal_strlit("name");
    reveal_strlit("generic_symbol");
    assert(type_debug((DataType::GenericType { name, generic_symbol, nature })) =~= "GenericType { name: "@ + str_debug_text(name@) + ", generic_symbol: "@ + str_debug_text(generic_symbol@) + " }"@);
}

/// The text of a POU shows its name, the list of its variable blocks, its
/// kind and its optional return type, in that order.
pub proof fn lemma_pou_text(p: Pou)
    ensures
        pou_debug(p) == "POU { name: "@ + str_debug_text(p.name@) + ", variable_blocks: "@ + list_text(blocks_debug(p.variable_blocks@)) + ", pou_type: "@ + pou_type_text(p.pou_type) + ", return_type: "@ + option_text(
            match p.return_type {
                Some(d) => Some(declaration_debug(d)),
                None => None,
            },
        ) + " }"@,
{
    lemma_record4_form(
        "POU"@,
        "name"@,
        str_debug_text(p.name@),
        "variable_blocks"@,
        list_text(blocks_debug(p.variable_blocks@)),
        "pou_type"@,
        pou_type_text(p.pou_type),
        "return_type"@,
        option_text(
            match p.return_type {
                Some(d) => Some(declaration_debug(d)),
                None => None,
            },
        ),
    );
    reveal_strlit("POU { name: ");
    reveal_strlit(", variable_blocks: ");
    reveal_strlit(", pou_type: ");
    reveal_strlit(", return_type: ");
    reveal_strlit(" }");
    reveal_strlit("POU");
    reveal_strlit(" { ");
    reveal_strlit(", ");
    reveal_strlit(": ");
    reveal_strlit("name");
    reveal_strlit("variable_blocks");
    reveal_strlit("pou_type");
    reveal_strlit("return_type");
    assert(pou_debug(p) =~= "POU { name: "@ + str_debug_text(p.name@) + ", variable_blocks: "@ + list_text(blocks_debug(p.variable_blocks@)) + ", pou_type: "@ + pou_type_text(p.pou_type) + ", return_type: "@ + option_text(
            match p.return_type {
                Some(d) => Some(declaration_debug(d)),
                None => None,
            },
        ) + " }"@);
}

} // verus!
