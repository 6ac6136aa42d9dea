//! The text that `{:?}` writes for a statement: the name of its kind and its
//! fields, without ids and locations.
use vstd::prelude::*;

use crate::ast::control_statements::AstControlStatement;
use crate::ast::{AstStatement, ConditionalBlock, DirectAccess, Operator};
use crate::text::{i128_to_string, i32_to_string, int_decimal, u32_to_string};

verus! {

// ---------------------------------------------------------------------------
// The shape of the text
// ---------------------------------------------------------------------------
/// The parts, with `, ` between each two.
pub open spec fn comma_joined(parts: Seq<Seq<char>>) -> Seq<char>
    decreases parts.len(),
{
    if parts.len() == 0 {
        seq![]
    } else if parts.len() == 1 {
        parts[0]
    } else {
        comma_joined(parts.drop_last()) + ", "@ + parts.last()
    }
}

/// A field of a record: `name: value`.
pub open spec fn field_text(name: Seq<char>, value: Seq<char>) -> Seq<char> {
    name + ": "@ + value
}

/// A record: its name alone where it shows no field, else
/// `Name { field, field }`.
pub open spec fn record_text(name: Seq<char>, fields: Seq<Seq<char>>) -> Seq<char> {
    if fields.len() == 0 {
        name
    } else {
        name + " { "@ + comma_joined(fields) + " }"@
    }
}

/// A list: `[item, item]`.
pub open spec fn list_text(items: Seq<Seq<char>>) -> Seq<char> {
    "["@ + comma_joined(items) + "]"@
}

/// An optional value: `Some(value)` or `None`.
pub open spec fn option_text(o: Option<Seq<char>>) -> Seq<char> {
    match o {
        Some(t) => "Some("@ + t + ")"@,
        None => "None"@,
    }
}

/// `true` or `false`.
pub open spec fn bool_text(b: bool) -> Seq<char> {
    if b {
        "true"@
    } else {
        "false"@
    }
}

/// The text that std's `Debug` writes for a string: the string in double
/// quotes, with its special characters escaped.
pub uninterp spec fn str_debug_text(s: Seq<char>) -> Seq<char>;

/// The name of an operator.
pub open spec fn operator_name(op: Operator) -> Seq<char> {
    match op {
        Operator::Plus => "Plus"@,
        Operator::Minus => "Minus"@,
        Operator::Multiplication => "Multiplication"@,
        Operator::Division => "Division"@,
        Operator::Equal => "Equal"@,
        Operator::NotEqual => "NotEqual"@,
        Operator::Modulo => "Modulo"@,
        Operator::Less => "Less"@,
        Operator::Greater => "Greater"@,
        Operator::LessOrEqual => "LessOrEqual"@,
        Operator::GreaterOrEqual => "GreaterOrEqual"@,
        Operator::Not => "Not"@,
        Operator::And => "And"@,
        Operator::Or => "Or"@,
        Operator::Xor => "Xor"@,
        Operator::Address => "Address"@,
    }
}

/// The name of a direct access width.
pub open spec fn direct_access_name(a: DirectAccess) -> Seq<char> {
    match a {
        DirectAccess::Bit => "Bit"@,
        DirectAccess::Byte => "Byte"@,
        DirectAccess::Word => "Word"@,
        DirectAccess::DWord => "DWord"@,
    }
}

// ---------------------------------------------------------------------------
// The text of statements
// ---------------------------------------------------------------------------
/// Whether a statement holds a duration literal anywhere; the fields of a
/// duration are floating point, whose text this library does not compute.
pub open spec fn has_duration(s: AstStatement) -> bool
    decreases s,
{
    match s {
        AstStatement::LiteralTime { .. } => true,
        AstStatement::LiteralArray { elements, .. } => match elements {
            Some(e) => has_duration(*e),
            None => false,
        },
        AstStatement::QualifiedReference { elements, .. } => any_duration(elements@),
        AstStatement::BinaryExpression { left, right, .. } => has_duration(*left) || has_duration(
            *right,
        ),
        AstStatement::UnaryExpression { value, .. } => has_duration(*value),
        AstStatement::ExpressionList { expressions, .. } => any_duration(expressions@),
        AstStatement::RangeStatement { start, end, .. } => has_duration(*start) || has_duration(
            *end,
        ),
        AstStatement::Assignment { left, right, .. } => has_duration(*left) || has_duration(*right),
        AstStatement::OutputAssignment { left, right, .. } => has_duration(*left) || has_duration(
            *right,
        ),
        AstStatement::CallStatement { operator, parameters, .. } => has_duration(*operator) || match *parameters {
            Some(p) => has_duration(p),
            None => false,
        },
        AstStatement::IfStatement { blocks, else_block, .. } => blocks_duration(blocks@)
            || any_duration(else_block@),
        AstStatement::ForLoopStatement { counter, start, end, by_step, body, .. } => has_duration(
            *counter,
        ) || has_duration(*start) || has_duration(*end) || match by_step {
            Some(b) => has_duration(*b),
            None => false,
        } || any_duration(body@),
        AstStatement::WhileLoopStatement { condition, body, .. } => has_duration(*condition)
            || any_duration(body@),
        AstStatement::RepeatLoopStatement { condition, body, .. } => has_duration(*condition)
            || any_duration(body@),
        AstStatement::CaseStatement { selector, case_blocks, else_block, .. } => has_duration(
            *selector,
        ) || blocks_duration(case_blocks@) || any_duration(else_block@),
        AstStatement::ArrayAccess { reference, access, .. } => has_duration(*reference)
            || has_duration(*access),
        AstStatement::PointerAccess { reference, .. } => has_duration(*reference),
        AstStatement::MultipliedStatement { element, .. } => has_duration(*element),
        AstStatement::CaseCondition { condition, .. } => has_duration(*condition),
        AstStatement::CastStatement { target, .. } => has_duration(*target),
        AstStatement::ControlStatement { kind, .. } => match kind {
            AstControlStatement::IfStatement(i) => blocks_duration(i.blocks@) || any_duration(
                i.else_block@,
            ),
        },
        _ => false,
    }
}

/// Whether one of the statements holds a duration literal.
pub open spec fn any_duration(items: Seq<AstStatement>) -> bool
    decreases items,
{
    if items.len() == 0 {
        false
    } else {
        any_duration(items.drop_last()) || has_duration(items.last())
    }
}

/// Whether one of the blocks holds a duration literal.
pub open spec fn blocks_duration(bs: Seq<ConditionalBlock>) -> bool
    decreases bs,
{
    if bs.len() == 0 {
        false
    } else {
        blocks_duration(bs.drop_last()) || has_duration(*bs.last().condition) || any_duration(
            bs.last().body@,
        )
    }
}

/// A record of one field.
pub open spec fn record1(name: Seq<char>, f1: Seq<char>, v1: Seq<char>) -> Seq<char> {
    record_text(name, seq![field_text(f1, v1)])
}

/// A record of two fields.
pub open spec fn record2(
    name: Seq<char>,
    f1: Seq<char>,
    v1: Seq<char>,
    f2: Seq<char>,
    v2: Seq<char>,
) -> Seq<char> {
    record_text(name, seq![field_text(f1, v1), field_text(f2, v2)])
}

/// The text of a statement as `{:?}` writes it: the kind of statement and
/// its fields (strings quoted and escaped as std's `Debug` writes them,
/// nested statements in the same form, lists in brackets, optional ones as
/// `Some(..)` or `None`), without ids and locations.
pub open spec fn debug_of(s: AstStatement) -> Seq<char>
    decreases s,
{
    match s {
        AstStatement::EmptyStatement { .. } => "EmptyStatement"@,
        AstStatement::LiteralNull { .. } => "LiteralNull"@,
        AstStatement::LiteralInteger { value, .. } => record1(
            "LiteralInteger"@,
            "value"@,
            int_decimal(value as int),
        ),
        AstStatement::LiteralDate { year, month, day, .. } => record_text(
            "LiteralDate"@,
            seq![
                field_text("year"@, int_decimal(year as int)),
                field_text("month"@, int_decimal(month as int)),
                field_text("day"@, int_decimal(day as int)),
            ],
        ),
        AstStatement::LiteralDateAndTime { year, month, day, hour, min, sec, milli, .. } => record_text(
            "LiteralDateAndTime"@,
            seq![
                field_text("year"@, int_decimal(year as int)),
                field_text("month"@, int_decimal(month as int)),
                field_text("day"@, int_decimal(day as int)),
                field_text("hour"@, int_decimal(hour as int)),
                field_text("min"@, int_decimal(min as int)),
                field_text("sec"@, int_decimal(sec as int)),
                field_text("milli"@, int_decimal(milli as int)),
            ],
        ),
        AstStatement::LiteralTimeOfDay { hour, min, sec, milli, .. } => record_text(
            "LiteralTimeOfDay"@,
            seq![
                field_text("hour"@, int_decimal(hour as int)),
                field_text("min"@, int_decimal(min as int)),
                field_text("sec"@, int_decimal(sec as int)),
                field_text("milli"@, int_decimal(milli as int)),
            ],
        ),
        AstStatement::LiteralTime { .. } => "LiteralTime"@,
        AstStatement::LiteralReal { value, .. } => record1(
            "LiteralReal"@,
            "value"@,
            str_debug_text(value@),
        ),
        AstStatement::LiteralBool { value, .. } => record1("LiteralBool"@, "value"@, bool_text(value)),
        AstStatement::LiteralString { value, is_wide, .. } => record2(
            "LiteralString"@,
            "value"@,
            str_debug_text(value@),
            "is_wide"@,
            bool_text(is_wide),
        ),
        AstStatement::LiteralArray { elements, .. } => record1(
            "LiteralArray"@,
            "elements"@,
            option_text(
                match elements {
                    Some(e) => Some(debug_of(*e)),
                    None => None,
                },
            ),
        ),
        AstStatement::Reference { name, .. } => record1(
            "Reference"@,
            "name"@,
            str_debug_text(name@),
        ),
        AstStatement::QualifiedReference { elements, .. } => record1(
            "QualifiedReference"@,
            "elements"@,
            list_text(debug_all(elements@)),
        ),
        AstStatement::BinaryExpression { operator, left, right, .. } => record_text(
            "BinaryExpression"@,
            seq![
                field_text("operator"@, operator_name(operator)),
                field_text("left"@, debug_of(*left)),
                field_text("right"@, debug_of(*right)),
            ],
        ),
        AstStatement::UnaryExpression { operator, value, .. } => record2(
            "UnaryExpression"@,
            "operator"@,
            operator_name(operator),
            "value"@,
            debug_of(*value),
        ),
        AstStatement::ExpressionList { expressions, .. } => record1(
            "ExpressionList"@,
            "expressions"@,
            list_text(debug_all(expressions@)),
        ),
        AstStatement::RangeStatement { start, end, .. } => record2(
            "RangeStatement"@,
            "start"@,
            debug_of(*start),
            "end"@,
            debug_of(*end),
        ),
        AstStatement::Assignment { left, right, .. } => record2(
            "Assignment"@,
            "left"@,
            debug_of(*left),
            "right"@,
            debug_of(*right),
        ),
        AstStatement::OutputAssignment { left, right, .. } => record2(
            "OutputAssignment"@,
            "left"@,
            debug_of(*left),
            "right"@,
            debug_of(*right),
        ),
        AstStatement::CallStatement { operator, parameters, .. } => record2(
            "CallStatement"@,
            "operator"@,
            debug_of(*operator),
            "parameters"@,
            option_text(
                match *parameters {
                    Some(p) => Some(debug_of(p)),
                    None => None,
                },
            ),
        ),
        AstStatement::IfStatement { blocks, else_block, .. } => record2(
            "IfStatement"@,
            "blocks"@,
            list_text(debug_blocks(blocks@)),
            "else_block"@,
            list_text(debug_all(else_block@)),
        ),
        AstStatement::ForLoopStatement { counter, start, end, by_step, body, .. } => {
            let step = option_text(
                match by_step {
                    Some(b) => Some(debug_of(*b)),
                    None => None,
                },
            );
            record_text(
                "ForLoopStatement"@,
                seq![
                    field_text("counter"@, debug_of(*counter)),
                    field_text("start"@, debug_of(*start)),
                    field_text("end"@, debug_of(*end)),
                    field_text("by_step"@, step),
                    field_text("body"@, list_text(debug_all(body@))),
                ],
            )
        },
        AstStatement::WhileLoopStatement { condition, body, .. } => record2(
            "WhileLoopStatement"@,
            "condition"@,
            debug_of(*condition),
            "body"@,
            list_text(debug_all(body@)),
        ),
        AstStatement::RepeatLoopStatement { condition, body, .. } => record2(
            "RepeatLoopStatement"@,
            "condition"@,
            debug_of(*condition),
            "body"@,
            list_text(debug_all(body@)),
        ),
        AstStatement::CaseStatement { selector, case_blocks, else_block, .. } => record_text(
            "CaseStatement"@,
            seq![
                field_text("selector"@, debug_of(*selector)),
                field_text("case_blocks"@, list_text(debug_blocks(case_blocks@))),
                field_text("else_block"@, list_text(debug_all(else_block@))),
            ],
        ),
        AstStatement::ArrayAccess { reference, access, .. } => record2(
            "ArrayAccess"@,
            "reference"@,
            debug_of(*reference),
            "access"@,
            debug_of(*access),
        ),
        AstStatement::PointerAccess { reference, .. } => record1(
            "PointerAccess"@,
            "reference"@,
            debug_of(*reference),
        ),
        AstStatement::DirectAccess { access, index, .. } => record2(
            "DirectAccess"@,
            "access"@,
            direct_access_name(access),
            "index"@,
            int_decimal(index as int),
        ),
        AstStatement::MultipliedStatement { multiplier, element, .. } => record2(
            "MultipliedStatement"@,
            "multiplier"@,
            int_decimal(multiplier as int),
            "element"@,
            debug_of(*element),
        ),
        AstStatement::CaseCondition { condition, .. } => record1(
            "CaseCondition"@,
            "condition"@,
            debug_of(*condition),
        ),
        AstStatement::ReturnStatement { .. } => "ReturnStatement"@,
        AstStatement::ContinueStatement { .. } => "ContinueStatement"@,
        AstStatement::ExitStatement { .. } => "ExitStatement"@,
        AstStatement::CastStatement { target, type_identifier, .. } => record2(
            "CastStatement"@,
            "type_name"@,
            str_debug_text(type_identifier@),
            "target"@,
            debug_of(*target),
        ),
        AstStatement::ControlStatement { kind, .. } => match kind {
            AstControlStatement::IfStatement(i) => record1(
                "ControlStatement"@,
                "kind"@,
                record2(
                    "IfStatement"@,
                    "blocks"@,
                    list_text(debug_blocks(i.blocks@)),
                    "else_block"@,
                    list_text(debug_all(i.else_block@)),
                ),
            ),
        },
    }
}

/// The texts of the statements, one for each.
pub open spec fn debug_all(items: Seq<AstStatement>) -> Seq<Seq<char>>
    decreases items,
{
    if items.len() == 0 {
        seq![]
    } else {
        debug_all(items.drop_last()).push(debug_of(items.last()))
    }
}

/// The texts of conditional blocks, one for each:
/// `ConditionalBlock { condition: .., body: [..] }`.
pub open spec fn debug_blocks(bs: Seq<ConditionalBlock>) -> Seq<Seq<char>>
    decreases bs,
{
    if bs.len() == 0 {
        seq![]
    } else {
        debug_blocks(bs.drop_last()).push(
            record2(
                "ConditionalBlock"@,
                "condition"@,
                debug_of(*bs.last().condition),
                "body"@,
                list_text(debug_all(bs.last().body@)),
            ),
        )
    }
}

/// std's `Debug` formatting of a string, as `{:?}` writes it.
#[verifier::external_body]
pub(crate) fn str_debug(s: &str) -> (r: String)
    ensures
        r@ == str_debug_text(s@),
{
    format!("{:?}", s)
}

// ---------------------------------------------------------------------------
// Building the text
// ---------------------------------------------------------------------------
/// The parts, with `, ` between each two.
pub(crate) fn join_parts(parts: &Vec<String>) -> (r: String)
    ensures
        r@ == comma_joined(parts@.map_values(|p: String| p@)),
{
    proof {
        reveal_strlit(", ");
    }
    let ghost texts = parts@.map_values(|p: String| p@);
    let mut out = String::new();
    let mut i: usize = 0;
    while i < parts.len()
        invariant
            i <= parts.len(),
            texts == parts@.map_values(|p: String| p@),
            out@ == comma_joined(texts.subrange(0, i as int)),
        decreases parts.len() - i,
    {
        if i > 0 {
            out.append(", ");
        }
        out.append(parts[i].as_str());
        i = i + 1;
        assert(texts.subrange(0, i as int).drop_last() =~= texts.subrange(0, i - 1));
    }
    assert(texts.subrange(0, parts.len() as int) =~= texts);
    out
}

/// A field of a record: `name: value`.
pub(crate) fn field(name: &str, value: String) -> (r: String)
    ensures
        r@ == field_text(name@, value@),
{
    proof {
        reveal_strlit(": ");
    }
    String::from_str(name).concat(": ").concat(value.as_str())
}

/// A record of the fields.
pub(crate) fn record(name: &str, fields: &Vec<String>) -> (r: String)
    ensures
        r@ == record_text(name@, fields@.map_values(|p: String| p@)),
{
    proof {
        reveal_strlit(" { ");
        reveal_strlit(" }");
    }
    if fields.len() == 0 {
        String::from_str(name)
    } else {
        let joined = join_parts(fields);
        String::from_str(name).concat(" { ").concat(joined.as_str()).concat(" }")
    }
}

/// A record of one field.
pub(crate) fn record_of1(name: &str, f1: &str, v1: String) -> (r: String)
    ensures
        r@ == record1(name@, f1@, v1@),
{
    let fields = vec![field(f1, v1)];
    assert(fields@.map_values(|p: String| p@) =~= seq![field_text(f1@, v1@)]);
    record(name, &fields)
}

/// A record of two fields.
pub(crate) fn record_of2(name: &str, f1: &str, v1: String, f2: &str, v2: String) -> (r: String)
    ensures
        r@ == record2(name@, f1@, v1@, f2@, v2@),
{
    let ghost (t1, t2) = (v1@, v2@);
    let fields = vec![field(f1, v1), field(f2, v2)];
    assert(fields@.map_values(|p: String| p@) =~= seq![field_text(f1@, t1), field_text(f2@, t2)]);
    record(name, &fields)
}

/// A list of the items.
pub(crate) fn list(items: &Vec<String>) -> (r: String)
    ensures
        r@ == list_text(items@.map_values(|p: String| p@)),
{
    proof {
        reveal_strlit("[");
        reveal_strlit("]");
    }
    let joined = join_parts(items);
    String::from_str("[").concat(joined.as_str()).concat("]")
}

/// An optional text: `Some(text)` or `None`.
pub(crate) fn option(o: Option<String>) -> (r: String)
    ensures
        r@ == option_text(
            match o {
                Some(t) => Some(t@),
                None => None,
            },
        ),
{
    proof {
        reveal_strlit("Some(");
        reveal_strlit(")");
        reveal_strlit("None");
    }
    match o {
        Some(t) => String::from_str("Some(").concat(t.as_str()).concat(")"),
        None => String::from_str("None"),
    }
}

/// `true` or `false`.
pub(crate) fn bool_string(b: bool) -> (r: String)
    ensures
        r@ == bool_text(b),
{
    proof {
        reveal_strlit("true");
        reveal_strlit("false");
    }
    if b {
        String::from_str("true")
    } else {
        String::from_str("false")
    }
}

/// The name of an operator.
fn operator_string(op: Operator) -> (r: String)
    ensures
        r@ == operator_name(op),
{
    proof {
        reveal_strlit("Plus");
        reveal_strlit("Minus");
        reveal_strlit("Multiplication");
        reveal_strlit("Division");
        reveal_strlit("Equal");
        reveal_strlit("NotEqual");
        reveal_strlit("Modulo");
        reveal_strlit("Less");
        reveal_strlit("Greater");
        reveal_strlit("LessOrEqual");
        reveal_strlit("GreaterOrEqual");
        reveal_strlit("Not");
        reveal_strlit("And");
        reveal_strlit("Or");
        reveal_strlit("Xor");
        reveal_strlit("Address");
    }
    let name = match op {
        Operator::Plus => "Plus",
        Operator::Minus => "Minus",
        Operator::Multiplication => "Multiplication",
        Operator::Division => "Division",
        Operator::Equal => "Equal",
        Operator::NotEqual => "NotEqual",
        Operator::Modulo => "Modulo",
        Operator::Less => "Less",
        Operator::Greater => "Greater",
        Operator::LessOrEqual => "LessOrEqual",
        Operator::GreaterOrEqual => "GreaterOrEqual",
        Operator::Not => "Not",
        Operator::And => "And",
        Operator::Or => "Or",
        Operator::Xor => "Xor",
        Operator::Address => "Address",
    };
    String::from_str(name)
}

/// The name of a direct access width.
fn direct_access_string(a: DirectAccess) -> (r: String)
    ensures
        r@ == direct_access_name(a),
{
    proof {
        reveal_strlit("Bit");
        reveal_strlit("Byte");
        reveal_strlit("Word");
        reveal_strlit("DWord");
    }
    let name = match a {
        DirectAccess::Bit => "Bit",
        DirectAccess::Byte => "Byte",
        DirectAccess::Word => "Word",
        DirectAccess::DWord => "DWord",
    };
    String::from_str(name)
}

/// The texts of the statements as a list; `None` where one of them holds a
/// duration literal.
fn debug_list(items: &Vec<AstStatement>) -> (r: Option<String>)
    ensures
        match r {
            Some(t) => !any_duration(items@) && t@ == list_text(debug_all(items@)),
            None => any_duration(items@),
        },
    decreases items,
{
    let mut texts: Vec<String> = Vec::new();
    let mut i: usize = 0;
    while i < items.len()
        invariant
            i <= items.len(),
            texts@.len() == i,
            texts@.map_values(|p: String| p@) == debug_all(items@.subrange(0, i as int)),
            !any_duration(items@.subrange(0, i as int)),
        decreases items.len() - i,
    {
        let text = match items[i].debug_text() {
            Some(t) => t,
            None => {
                assert(items@.subrange(0, i + 1).drop_last() =~= items@.subrange(0, i as int));
                assert(any_duration(items@.subrange(0, i + 1)));
                assert(items@.subrange(0, items.len() as int) =~= items@);
                proof {
                    lemma_any_duration_prefix(items@, i + 1);
                }
                return None;
            },
        };
        let ghost before = texts@;
        texts.push(text);
        i = i + 1;
        assert(items@.subrange(0, i as int).drop_last() =~= items@.subrange(0, i - 1));
        assert(texts@.map_values(|p: String| p@) =~= before.map_values(|p: String| p@).push(
            texts@[i - 1]@,
        ));
    }
    assert(items@.subrange(0, items.len() as int) =~= items@);
    Some(list(&texts))
}

/// A prefix with a duration literal makes the whole hold one.
proof fn lemma_any_duration_prefix(items: Seq<AstStatement>, k: int)
    requires
        0 <= k <= items.len(),
        any_duration(items.subrange(0, k)),
    ensures
        any_duration(items),
    decreases items.len() - k,
{
    if k < items.len() {
        assert(items.subrange(0, k + 1).drop_last() =~= items.subrange(0, k));
        lemma_any_duration_prefix(items, k + 1);
    } else {
        assert(items.subrange(0, k) =~= items);
    }
}

/// A prefix of blocks with a duration literal makes the whole hold one.
proof fn lemma_blocks_duration_prefix(bs: Seq<ConditionalBlock>, k: int)
    requires
        0 <= k <= bs.len(),
        blocks_duration(bs.subrange(0, k)),
    ensures
        blocks_duration(bs),
    decreases bs.len() - k,
{
    if k < bs.len() {
        assert(bs.subrange(0, k + 1).drop_last() =~= bs.subrange(0, k));
        lemma_blocks_duration_prefix(bs, k + 1);
    } else {
        assert(bs.subrange(0, k) =~= bs);
    }
}

/// The texts of the conditional blocks as a list; `None` where one of them
/// holds a duration literal.
fn debug_block_list(bs: &Vec<ConditionalBlock>) -> (r: Option<String>)
    ensures
        match r {
            Some(t) => !blocks_duration(bs@) && t@ == list_text(debug_blocks(bs@)),
            None => blocks_duration(bs@),
        },
    decreases bs,
{
    let mut texts: Vec<String> = Vec::new();
    let mut i: usize = 0;
    while i < bs.len()
        invariant
            i <= bs.len(),
            texts@.len() == i,
            texts@.map_values(|p: String| p@) == debug_blocks(bs@.subrange(0, i as int)),
            !blocks_duration(bs@.subrange(0, i as int)),
        decreases bs.len() - i,
    {
        let b = &bs[i];
        assert(bs@.subrange(0, i + 1).drop_last() =~= bs@.subrange(0, i as int));
        let condition = match b.condition.debug_text() {
            Some(t) => t,
            None => {
                proof {
                    lemma_blocks_duration_prefix(bs@, i + 1);
                }
                return None;
            },
        };
        let body = match debug_list(&b.body) {
            Some(t) => t,
            None => {
                proof {
                    lemma_blocks_duration_prefix(bs@, i + 1);
                }
                return None;
            },
        };
        let text = record_of2("ConditionalBlock", "condition", condition, "body", body);
        let ghost before = texts@;
        texts.push(text);
        i = i + 1;
        assert(texts@.map_values(|p: String| p@) =~= before.map_values(|p: String| p@).push(
            texts@[i - 1]@,
        ));
    }
    assert(bs@.subrange(0, bs.len() as int) =~= bs@);
    Some(list(&texts))
}

/// The text of an optional statement; `None` where it holds a duration
/// literal.
fn debug_option(o: &Option<Box<AstStatement>>) -> (r: Option<String>)
    ensures
        match r {
            Some(t) => !(o matches Some(e) && has_duration(**e)) && t@ == option_text(
                match o {
                    Some(e) => Some(debug_of(**e)),
                    None => None,
                },
            ),
            None => o matches Some(e) && has_duration(**e),
        },
    decreases o,
{
    match o {
        Some(e) => match e.debug_text() {
            Some(t) => Some(option(Some(t))),
            None => None,
        },
        None => Some(option(None)),
    }
}

impl AstStatement {
    /// The text of the statement as `{:?}` writes it (see `debug_of`);
    /// `None` where it holds a duration literal, whose fields are floating
    /// point.
    pub fn debug_text(&self) -> (r: Option<String>)
        ensures
            match r {
                Some(t) => !has_duration(*self) && t@ == debug_of(*self),
                None => has_duration(*self),
            },
        decreases self,
    {
        proof {
            reveal_strlit("EmptyStatement");
            reveal_strlit("LiteralNull");
            reveal_strlit("ReturnStatement");
            reveal_strlit("ContinueStatement");
            reveal_strlit("ExitStatement");
        }
        match self {
            AstStatement::EmptyStatement { .. } => Some(String::from_str("EmptyStatement")),
            AstStatement::LiteralNull { .. } => Some(String::from_str("LiteralNull")),
            AstStatement::ReturnStatement { .. } => Some(String::from_str("ReturnStatement")),
            AstStatement::ContinueStatement { .. } => Some(String::from_str("ContinueStatement")),
            AstStatement::ExitStatement { .. } => Some(String::from_str("ExitStatement")),
            AstStatement::LiteralTime { .. } => None,
            AstStatement::LiteralInteger { value, .. } => Some(
                record_of1("LiteralInteger", "value", i128_to_string(*value)),
            ),
            AstStatement::LiteralDate { year, month, day, .. } => {
                let fields = vec![
                    field("year", i32_to_string(*year)),
                    field("month", u32_to_string(*month)),
                    field("day", u32_to_string(*day)),
                ];
                assert(fields@.map_values(|p: String| p@) =~= seq![
                    field_text("year"@, int_decimal(*year as int)),
                    field_text("month"@, int_decimal(*month as int)),
                    field_text("day"@, int_decimal(*day as int)),
                ]);
                Some(record("LiteralDate", &fields))
            },
            AstStatement::LiteralDateAndTime { year, month, day, hour, min, sec, milli, .. } => {
                let fields = vec![
                    field("year", i32_to_string(*year)),
                    field("month", u32_to_string(*month)),
                    field("day", u32_to_string(*day)),
                    field("hour", u32_to_string(*hour)),
                    field("min", u32_to_string(*min)),
                    field("sec", u32_to_string(*sec)),
                    field("milli", u32_to_string(*milli)),
                ];
                assert(fields@.map_values(|p: String| p@) =~= seq![
                    field_text("year"@, int_decimal(*year as int)),
                    field_text("month"@, int_decimal(*month as int)),
                    field_text("day"@, int_decimal(*day as int)),
                    field_text("hour"@, int_decimal(*hour as int)),
                    field_text("min"@, int_decimal(*min as int)),
                    field_text("sec"@, int_decimal(*sec as int)),
                    field_text("milli"@, int_decimal(*milli as int)),
                ]);
                Some(record("LiteralDateAndTime", &fields))
            },
            AstStatement::LiteralTimeOfDay { hour, min, sec, milli, .. } => {
                let fields = vec![
                    field("hour", u32_to_string(*hour)),
                    field("min", u32_to_string(*min)),
                    field("sec", u32_to_string(*sec)),
                    field("milli", u32_to_string(*milli)),
                ];
                assert(fields@.map_values(|p: String| p@) =~= seq![
                    field_text("hour"@, int_decimal(*hour as int)),
                    field_text("min"@, int_decimal(*min as int)),
                    field_text("sec"@, int_decimal(*sec as int)),
                    field_text("milli"@, int_decimal(*milli as int)),
                ]);
                Some(record("LiteralTimeOfDay", &fields))
            },
            AstStatement::LiteralReal { value, .. } => Some(
                record_of1("LiteralReal", "value", str_debug(value.as_str())),
            ),
            AstStatement::LiteralBool { value, .. } => Some(
                record_of1("LiteralBool", "value", bool_string(*value)),
            ),
            AstStatement::LiteralString { value, is_wide, .. } => Some(
                record_of2(
                    "LiteralString",
                    "value",
                    str_debug(value.as_str()),
                    "is_wide",
                    bool_string(*is_wide),
                ),
            ),
            AstStatement::LiteralArray { elements, .. } => match debug_option(elements) {
                Some(t) => Some(record_of1("LiteralArray", "elements", t)),
                None => None,
            },
            AstStatement::Reference { name, .. } => Some(
                record_of1("Reference", "name", str_debug(name.as_str())),
            ),
            AstStatement::QualifiedReference { elements, .. } => match debug_list(elements) {
                Some(t) => Some(record_of1("QualifiedReference", "elements", t)),
                None => None,
            },
            AstStatement::BinaryExpression { operator, left, right, .. } => {
                let l = match left.debug_text() {
                    Some(t) => t,
                    None => return None,
                };
                let r = match right.debug_text() {
                    Some(t) => t,
                    None => return None,
                };
                let ghost (lt, rt) = (l@, r@);
                let fields = vec![
                    field("operator", operator_string(*operator)),
                    field("left", l),
                    field("right", r),
                ];
                assert(fields@.map_values(|p: String| p@) =~= seq![
                    field_text("operator"@, operator_name(*operator)),
                    field_text("left"@, lt),
                    field_text("right"@, rt),
                ]);
                Some(record("BinaryExpression", &fields))
            },
            AstStatement::UnaryExpression { operator, value, .. } => match value.debug_text() {
                Some(t) => Some(
                    record_of2("UnaryExpression", "operator", operator_string(*operator), "value", t),
                ),
                None => None,
            },
            AstStatement::ExpressionList { expressions, .. } => match debug_list(expressions) {
                Some(t) => Some(record_of1("ExpressionList", "expressions", t)),
                None => None,
            },
            AstStatement::RangeStatement { start, end, .. } => {
                let a = match start.debug_text() {
                    Some(t) => t,
                    None => return None,
                };
                let b = match end.debug_text() {
                    Some(t) => t,
                    None => return None,
                };
                Some(record_of2("RangeStatement", "start", a, "end", b))
            },
            AstStatement::Assignment { left, right, .. } => {
                let a = match left.debug_text() {
                    Some(t) => t,
                    None => return None,
                };
                let b = match right.debug_text() {
                    Some(t) => t,
                    None => return None,
                };
                Some(record_of2("Assignment", "left", a, "right", b))
            },
            AstStatement::OutputAssignment { left, right, .. } => {
                let a = match left.debug_text() {
                    Some(t) => t,
                    None => return None,
                };
                let b = match right.debug_text() {
                    Some(t) => t,
                    None => return None,
                };
                Some(record_of2("OutputAssignment", "left", a, "right", b))
            },
            AstStatement::CallStatement { operator, parameters, .. } => {
                let a = match operator.debug_text() {
                    Some(t) => t,
                    None => return None,
                };
                let b = match &**parameters {
                    Some(p) => match p.debug_text() {
                        Some(t) => option(Some(t)),
                        None => return None,
                    },
                    None => option(None),
                };
                Some(record_of2("CallStatement", "operator", a, "parameters", b))
            },
            AstStatement::IfStatement { blocks, else_block, .. } => {
                let a = match debug_block_list(blocks) {
                    Some(t) => t,
                    None => return None,
                };
                let b = match debug_list(else_block) {
                    Some(t) => t,
                    None => return None,
                };
                Some(record_of2("IfStatement", "blocks", a, "else_block", b))
            },
            AstStatement::ForLoopStatement { counter, start, end, by_step, body, .. } => {
                let c = match counter.debug_text() {
                    Some(t) => t,
                    None => return None,
                };
                let a = match start.debug_text() {
                    Some(t) => t,
                    None => return None,
                };
                let e = match end.debug_text() {
                    Some(t) => t,
                    None => return None,
                };
                let st = match debug_option(by_step) {
                    Some(t) => t,
                    None => return None,
                };
                let b = match debug_list(body) {
                    Some(t) => t,
                    None => return None,
                };
                let ghost (ct, at, et, stt, bt) = (c@, a@, e@, st@, b@);
                let fields = vec![
                    field("counter", c),
                    field("start", a),
                    field("end", e),
                    field("by_step", st),
                    field("body", b),
                ];
                assert(fields@.map_values(|p: String| p@) =~= seq![
                    field_text("counter"@, ct),
                    field_text("start"@, at),
                    field_text("end"@, et),
                    field_text("by_step"@, stt),
                    field_text("body"@, bt),
                ]);
                Some(record("ForLoopStatement", &fields))
            },
            AstStatement::WhileLoopStatement { condition, body, .. } => {
                let a = match condition.debug_text() {
                    Some(t) => t,
                    None => return None,
                };
                let b = match debug_list(body) {
                    Some(t) => t,
                    None => return None,
                };
                Some(record_of2("WhileLoopStatement", "condition", a, "body", b))
            },
            AstStatement::RepeatLoopStatement { condition, body, .. } => {
                let a = match condition.debug_text() {
                    Some(t) => t,
                    None => return None,
                };
                let b = match debug_list(body) {
                    Some(t) => t,
                    None => return None,
                };
                Some(record_of2("RepeatLoopStatement", "condition", a, "body", b))
            },
            AstStatement::CaseStatement { selector, case_blocks, else_block, .. } => {
                let a = match selector.debug_text() {
                    Some(t) => t,
                    None => return None,
                };
                let b = match debug_block_list(case_blocks) {
                    Some(t) => t,
                    None => return None,
                };
                let c = match debug_list(else_block) {
                    Some(t) => t,
                    None => return None,
                };
                let ghost (at, bt, ct) = (a@, b@, c@);
                let fields = vec![field("selector", a), field("case_blocks", b), field("else_block", c)];
                assert(fields@.map_values(|p: String| p@) =~= seq![
                    field_text("selector"@, at),
                    field_text("case_blocks"@, bt),
                    field_text("else_block"@, ct),
                ]);
                Some(record("CaseStatement", &fields))
            },
            AstStatement::ArrayAccess { reference, access, .. } => {
                let a = match reference.debug_text() {
                    Some(t) => t,
                    None => return None,
                };
                let b = match access.debug_text() {
                    Some(t) => t,
                    None => return None,
                };
                Some(record_of2("ArrayAccess", "reference", a, "access", b))
            },
            AstStatement::PointerAccess { reference, .. } => match reference.debug_text() {
                Some(t) => Some(record_of1("PointerAccess", "reference", t)),
                None => None,
            },
            AstStatement::DirectAccess { access, index, .. } => Some(
                record_of2(
                    "DirectAccess",
                    "access",
                    direct_access_string(*access),
                    "index",
                    u32_to_string(*index),
                ),
            ),
            AstStatement::MultipliedStatement { multiplier, element, .. } => match element.debug_text() {
                Some(t) => Some(
                    record_of2("MultipliedStatement", "multiplier", u32_to_string(*multiplier), "element", t),
                ),
                None => None,
            },
            AstStatement::CaseCondition { condition, .. } => match condition.debug_text() {
                Some(t) => Some(record_of1("CaseCondition", "condition", t)),
                None => None,
            },
            AstStatement::CastStatement { target, type_identifier, .. } => match target.debug_text() {
                Some(t) => Some(
                    record_of2(
                        "CastStatement",
                        "type_name",
                        str_debug(type_identifier.as_str()),
                        "target",
                        t,
                    ),
                ),
                None => None,
            },
            AstStatement::ControlStatement { kind, .. } => match kind {
                AstControlStatement::IfStatement(i) => {
                    let a = match debug_block_list(&i.blocks) {
                        Some(t) => t,
                        None => return None,
                    };
                    let b = match debug_list(&i.else_block) {
                        Some(t) => t,
                        None => return None,
                    };
                    let inner = record_of2("IfStatement", "blocks", a, "else_block", b);
                    Some(record_of1("ControlStatement", "kind", inner))
                },
            },
        }
    }
}

// ---------------------------------------------------------------------------
// The text does not depend on places
// ---------------------------------------------------------------------------
/// Whether two statements are the same apart from their locations and ids,
/// at any depth.
pub open spec fn same_shape(a: AstStatement, b: AstStatement) -> bool
    decreases a,
{
    match a {
        AstStatement::EmptyStatement { .. } => match b {
            AstStatement::EmptyStatement { .. } => true,
            _ => false,
        },
        AstStatement::LiteralNull { .. } => match b {
            AstStatement::LiteralNull { .. } => true,
            _ => false,
        },
        AstStatement::ReturnStatement { .. } => match b {
            AstStatement::ReturnStatement { .. } => true,
            _ => false,
        },
        AstStatement::ContinueStatement { .. } => match b {
            AstStatement::ContinueStatement { .. } => true,
            _ => false,
        },
        AstStatement::ExitStatement { .. } => match b {
            AstStatement::ExitStatement { .. } => true,
            _ => false,
        },
        AstStatement::LiteralInteger { value, .. } => match b {
            AstStatement::LiteralInteger { value: value2, .. } => (value == value2),
            _ => false,
        },
        AstStatement::LiteralDate { year, month, day, .. } => match b {
            AstStatement::LiteralDate { year: year2, month: month2, day: day2, .. } => (year == year2) && (month == month2) && (day == day2),
            _ => false,
        },
        AstStatement::LiteralDateAndTime { year, month, day, hour, min, sec, milli, .. } => match b {
            AstStatement::LiteralDateAndTime { year: year2, month: month2, day: day2, hour: hour2, min: min2, sec: sec2, milli: milli2, .. } => (year == year2) && (month == month2) && (day == day2) && (hour == hour2) && (min == min2) && (sec == sec2) && (milli == milli2),
            _ => false,
        },
        AstStatement::LiteralTimeOfDay { hour, min, sec, milli, .. } => match b {
            AstStatement::LiteralTimeOfDay { hour: hour2, min: min2, sec: sec2, milli: milli2, .. } => (hour == hour2) && (min == min2) && (sec == sec2) && (milli == milli2),
            _ => false,
        },
        AstStatement::LiteralTime { day, hour, min, sec, milli, micro, nano, negative, .. } => match b {
            AstStatement::LiteralTime { day: day2, hour: hour2, min: min2, sec: sec2, milli: milli2, micro: micro2, nano: nano2, negative: negative2, .. } => (day == day2) && (hour == hour2) && (min == min2) && (sec == sec2) && (milli == milli2) && (micro == micro2) && (nano == nano2) && (negative == negative2),
            _ => false,
        },
        AstStatement::LiteralReal { value, .. } => match b {
            AstStatement::LiteralReal { value: value2, .. } => (value@ == value2@),
            _ => false,
        },
        AstStatement::LiteralBool { value, .. } => match b {
            AstStatement::LiteralBool { value: value2, .. } => (value == value2),
            _ => false,
        },
        AstStatement::LiteralString { value, is_wide, .. } => match b {
            AstStatement::LiteralString { value: value2, is_wide: is_wide2, .. } => (value@ == value2@) && (is_wide == is_wide2),
            _ => false,
        },
        AstStatement::LiteralArray { elements, .. } => match b {
            AstStatement::LiteralArray { elements: elements2, .. } => (match elements { Some(x) => elements2 matches Some(y) && same_shape(*x, *y), None => elements2 is None }),
            _ => false,
        },
        AstStatement::Reference { name, .. } => match b {
            AstStatement::Reference { name: name2, .. } => (name@ == name2@),
            _ => false,
        },
        AstStatement::QualifiedReference { elements, .. } => match b {
            AstStatement::QualifiedReference { elements: elements2, .. } => (all_same_shape(elements@, elements2@)),
            _ => false,
        },
        AstStatement::BinaryExpression { operator, left, right, .. } => match b {
            AstStatement::BinaryExpression { operator: operator2, left: left2, right: right2, .. } => (operator == operator2) && (same_shape(*left, *left2)) && (same_shape(*right, *right2)),
            _ => false,
        },
        AstStatement::UnaryExpression { operator, value, .. } => match b {
            AstStatement::UnaryExpression { operator: operator2, value: value2, .. } => (operator == operator2) && (same_shape(*value, *value2)),
            _ => false,
        },
        AstStatement::ExpressionList { expressions, .. } => match b {
            AstStatement::ExpressionList { expressions: expressions2, .. } => (all_same_shape(expressions@, expressions2@)),
            _ => false,
        },
        AstStatement::RangeStatement { start, end, .. } => match b {
            AstStatement::RangeStatement { start: start2, end: end2, .. } => (same_shape(*start, *start2)) && (same_shape(*end, *end2)),
            _ => false,
        },
        AstStatement::Assignment { left, right, .. } => match b {
            AstStatement::Assignment { left: left2, right: right2, .. } => (same_shape(*left, *left2)) && (same_shape(*right, *right2)),
            _ => false,
        },
        AstStatement::OutputAssignment { left, right, .. } => match b {
            AstStatement::OutputAssignment { left: left2, right: right2, .. } => (same_shape(*left, *left2)) && (same_shape(*right, *right2)),
            _ => false,
        },
        AstStatement::CallStatement { operator, parameters, .. } => match b {
            AstStatement::CallStatement { operator: operator2, parameters: parameters2, .. } => (same_shape(*operator, *operator2)) && (match *parameters { Some(x) => *parameters2 matches Some(y) && same_shape(x, y), None => *parameters2 is None }),
            _ => false,
        },
        AstStatement::IfStatement { blocks, else_block, .. } => match b {
            AstStatement::IfStatement { blocks: blocks2, else_block: else_block2, .. } => (blocks_same_shape(blocks@, blocks2@)) && (all_same_shape(else_block@, else_block2@)),
            _ => false,
        },
        AstStatement::ForLoopStatement { counter, start, end, by_step, body, .. } => match b {
            AstStatement::ForLoopStatement { counter: counter2, start: start2, end: end2, by_step: by_step2, body: body2, .. } => (same_shape(*counter, *counter2)) && (same_shape(*start, *start2)) && (same_shape(*end, *end2)) && (match by_step { Some(x) => by_step2 matches Some(y) && same_shape(*x, *y), None => by_step2 is None }) && (all_same_shape(body@, body2@)),
            _ => false,
        },
        AstStatement::WhileLoopStatement { condition, body, .. } => match b {
            AstStatement::WhileLoopStatement { condition: condition2, body: body2, .. } => (same_shape(*condition, *condition2)) && (all_same_shape(body@, body2@)),
            _ => false,
        },
        AstStatement::RepeatLoopStatement { condition, body, .. } => match b {
            AstStatement::RepeatLoopStatement { condition: condition2, body: body2, .. } => (same_shape(*condition, *condition2)) && (all_same_shape(body@, body2@)),
            _ => false,
        },
        AstStatement::CaseStatement { selector, case_blocks, else_block, .. } => match b {
            AstStatement::CaseStatement { selector: selector2, case_blocks: case_blocks2, else_block: else_block2, .. } => (same_shape(*selector, *selector2)) && (blocks_same_shape(case_blocks@, case_blocks2@)) && (all_same_shape(else_block@, else_block2@)),
            _ => false,
        },
        AstStatement::ArrayAccess { reference, access, .. } => match b {
            AstStatement::ArrayAccess { reference: reference2, access: access2, .. } => (same_shape(*reference, *reference2)) && (same_shape(*access, *access2)),
            _ => false,
        },
        AstStatement::PointerAccess { reference, .. } => match b {
            AstStatement::PointerAccess { reference: reference2, .. } => (same_shape(*reference, *reference2)),
            _ => false,
        },
        AstStatement::DirectAccess { access, index, .. } => match b {
            AstStatement::DirectAccess { access: access2, index: index2, .. } => (access == access2) && (index == index2),
            _ => false,
        },
        AstStatement::MultipliedStatement { multiplier, element, .. } => match b {
            AstStatement::MultipliedStatement { multiplier: multiplier2, element: element2, .. } => (multiplier == multiplier2) && (same_shape(*element, *element2)),
            _ => false,
        },
        AstStatement::CaseCondition { condition, .. } => match b {
            AstStatement::CaseCondition { condition: condition2, .. } => (same_shape(*condition, *condition2)),
            _ => false,
        },
        AstStatement::CastStatement { target, type_identifier, .. } => match b {
            AstStatement::CastStatement { target: target2, type_identifier: type_identifier2, .. } => (same_shape(*target, *target2)) && (type_identifier@ == type_identifier2@),
            _ => false,
        },
        AstStatement::ControlStatement { kind, .. } => match kind {
            AstControlStatement::IfStatement(i) => match b {
                AstStatement::ControlStatement { kind: AstControlStatement::IfStatement(j), .. } => {
                    blocks_same_shape(i.blocks@, j.blocks@) && all_same_shape(
                        i.else_block@,
                        j.else_block@,
                    )
                },
                _ => false,
            },
        },
    }
}

/// Whether two lists of statements are the same apart from locations and
/// ids.
pub open spec fn all_same_shape(xs: Seq<AstStatement>, ys: Seq<AstStatement>) -> bool
    decreases xs,
{
    if xs.len() == 0 {
        ys.len() == 0
    } else {
        ys.len() == xs.len() && all_same_shape(xs.drop_last(), ys.drop_last()) && same_shape(
            xs.last(),
            ys.last(),
        )
    }
}

/// Whether two lists of conditional blocks are the same apart from locations
/// and ids.
pub open spec fn blocks_same_shape(xs: Seq<ConditionalBlock>, ys: Seq<ConditionalBlock>) -> bool
    decreases xs,
{
    if xs.len() == 0 {
        ys.len() == 0
    } else {
        ys.len() == xs.len() && blocks_same_shape(xs.drop_last(), ys.drop_last()) && same_shape(
            *xs.last().condition,
            *ys.last().condition,
        ) && all_same_shape(xs.last().body@, ys.last().body@)
    }
}

/// The text of a statement does not depend on locations or ids: two
/// statements that differ only in them have the same text, and hold a
/// duration literal alike.
pub proof fn lemma_same_shape_text(a: AstStatement, b: AstStatement)
    requires
        same_shape(a, b),
    ensures
        debug_of(a) == debug_of(b),
        has_duration(a) == has_duration(b),
    decreases a,
{
    match a {
        AstStatement::LiteralArray { elements, .. } => match b {
            AstStatement::LiteralArray { elements: elements2, .. } => {
                    if let (Some(x), Some(y)) = (elements, elements2) { lemma_same_shape_text(*x, *y); }
            },
            _ => {},
        },
        AstStatement::QualifiedReference { elements, .. } => match b {
            AstStatement::QualifiedReference { elements: elements2, .. } => {
                    lemma_all_same_shape_text(elements@, elements2@);
            },
            _ => {},
        },
        AstStatement::BinaryExpression { operator, left, right, .. } => match b {
            AstStatement::BinaryExpression { operator: operator2, left: left2, right: right2, .. } => {
                    lemma_same_shape_text(*left, *left2);
                    lemma_same_shape_text(*right, *right2);
            },
            _ => {},
        },
        AstStatement::UnaryExpression { operator, value, .. } => match b {
            AstStatement::UnaryExpression { operator: operator2, value: value2, .. } => {
                    lemma_same_shape_text(*value, *value2);
            },
            _ => {},
        },
        AstStatement::ExpressionList { expressions, .. } => match b {
            AstStatement::ExpressionList { expressions: expressions2, .. } => {
                    lemma_all_same_shape_text(expressions@, expressions2@);
            },
            _ => {},
        },
        AstStatement::RangeStatement { start, end, .. } => match b {
            AstStatement::RangeStatement { start: start2, end: end2, .. } => {
                    lemma_same_shape_text(*start, *start2);
                    lemma_same_shape_text(*end, *end2);
            },
            _ => {},
        },
        AstStatement::Assignment { left, right, .. } => match b {
            AstStatement::Assignment { left: left2, right: right2, .. } => {
                    lemma_same_shape_text(*left, *left2);
                    lemma_same_shape_text(*right, *right2);
            },
            _ => {},
        },
        AstStatement::OutputAssignment { left, right, .. } => match b {
            AstStatement::OutputAssignment { left: left2, right: right2, .. } => {
                    lemma_same_shape_text(*left, *left2);
                    lemma_same_shape_text(*right, *right2);
            },
            _ => {},
        },
        AstStatement::CallStatement { operator, parameters, .. } => match b {
            AstStatement::CallStatement { operator: operator2, parameters: parameters2, .. } => {
                    lemma_same_shape_text(*operator, *operator2);
                    if let (Some(x), Some(y)) = (*parameters, *parameters2) { lemma_same_shape_text(x, y); }
            },
            _ => {},
        },
        AstStatement::IfStatement { blocks, else_block, .. } => match b {
            AstStatement::IfStatement { blocks: blocks2, else_block: else_block2, .. } => {
                    lemma_blocks_same_shape_text(blocks@, blocks2@);
                    lemma_all_same_shape_text(else_block@, else_block2@);
            },
            _ => {},
        },
        AstStatement::ForLoopStatement { counter, start, end, by_step, body, .. } => match b {
            AstStatement::ForLoopStatement { counter: counter2, start: start2, end: end2, by_step: by_step2, body: body2, .. } => {
                    lemma_same_shape_text(*counter, *counter2);
                    lemma_same_shape_text(*start, *start2);
                    lemma_same_shape_text(*end, *end2);
                    if let (Some(x), Some(y)) = (by_step, by_step2) { lemma_same_shape_text(*x, *y); }
                    lemma_all_same_shape_text(body@, body2@);
            },
            _ => {},
        },
        AstStatement::WhileLoopStatement { condition, body, .. } => match b {
            AstStatement::WhileLoopStatement { condition: condition2, body: body2, .. } => {
                    lemma_same_shape_text(*condition, *condition2);
                    lemma_all_same_shape_text(body@, body2@);
            },
            _ => {},
        },
        AstStatement::RepeatLoopStatement { condition, body, .. } => match b {
            AstStatement::RepeatLoopStatement { condition: condition2, body: body2, .. } => {
                    lemma_same_shape_text(*condition, *condition2);
                    lemma_all_same_shape_text(body@, body2@);
            },
            _ => {},
        },
        AstStatement::CaseStatement { selector, case_blocks, else_block, .. } => match b {
            AstStatement::CaseStatement { selector: selector2, case_blocks: case_blocks2, else_block: else_block2, .. } => {
                    lemma_same_shape_text(*selector, *selector2);
                    lemma_blocks_same_shape_text(case_blocks@, case_blocks2@);
                    lemma_all_same_shape_text(else_block@, else_block2@);
            },
            _ => {},
        },
        AstStatement::ArrayAccess { reference, access, .. } => match b {
            AstStatement::ArrayAccess { reference: reference2, access: access2, .. } => {
                    lemma_same_shape_text(*reference, *reference2);
                    lemma_same_shape_text(*access, *access2);
            },
            _ => {},
        },
        AstStatement::PointerAccess { reference, .. } => match b {
            AstStatement::PointerAccess { reference: reference2, .. } => {
                    lemma_same_shape_text(*reference, *reference2);
            },
            _ => {},
        },
        AstStatement::MultipliedStatement { multiplier, element, .. } => match b {
            AstStatement::MultipliedStatement { multiplier: multiplier2, element: element2, .. } => {
                    lemma_same_shape_text(*element, *element2);
            },
            _ => {},
        },
        AstStatement::CaseCondition { condition, .. } => match b {
            AstStatement::CaseCondition { condition: condition2, .. } => {
                    lemma_same_shape_text(*condition, *condition2);
            },
            _ => {},
        },
        AstStatement::CastStatement { target, type_identifier, .. } => match b {
            AstStatement::CastStatement { target: target2, type_identifier: type_identifier2, .. } => {
                    lemma_same_shape_text(*target, *target2);
            },
            _ => {},
        },
        AstStatement::ControlStatement { kind, .. } => match kind {
            AstControlStatement::IfStatement(i) => match b {
                AstStatement::ControlStatement { kind: AstControlStatement::IfStatement(j), .. } => {
                    lemma_blocks_same_shape_text(i.blocks@, j.blocks@);
                    lemma_all_same_shape_text(i.else_block@, j.else_block@);
                },
                _ => {},
            },
        },
        _ => {},
    }
}

/// Lists of statements that differ only in locations and ids have the same
/// texts.
pub proof fn lemma_all_same_shape_text(xs: Seq<AstStatement>, ys: Seq<AstStatement>)
    requires
        all_same_shape(xs, ys),
    ensures
        debug_all(xs) == debug_all(ys),
        any_duration(xs) == any_duration(ys),
    decreases xs,
{
    if xs.len() > 0 {
        lemma_all_same_shape_text(xs.drop_last(), ys.drop_last());
        lemma_same_shape_text(xs.last(), ys.last());
    }
}

/// Lists of conditional blocks that differ only in locations and ids have
/// the same texts.
pub proof fn lemma_blocks_same_shape_text(xs: Seq<ConditionalBlock>, ys: Seq<ConditionalBlock>)
    requires
        blocks_same_shape(xs, ys),
    ensures
        debug_blocks(xs) == debug_blocks(ys),
        blocks_duration(xs) == blocks_duration(ys),
    decreases xs,
{
    if xs.len() > 0 {
        lemma_blocks_same_shape_text(xs.drop_last(), ys.drop_last());
        lemma_same_shape_text(*xs.last().condition, *ys.last().condition);
        lemma_all_same_shape_text(xs.last().body@, ys.last().body@);
    }
}

} // verus!
