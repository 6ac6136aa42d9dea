use vstd::prelude::*;

use crate::ast::debug_text::{debug_of, has_duration};
use crate::ast::{constant_symbols_defined, constant_text, extract_value, AstStatement};
use crate::text::{parse_i32, parse_i32_text};

verus! {

/// The bounds of one dimension of an array type.
#[derive(Clone, Copy, Debug, PartialEq, Eq)]
pub struct Dimension {
    pub start_offset: i32,
    pub end_offset: i32,
}

/// The value of an array bound: the constant's text read as an `i32` (0 where
/// it is not a valid `i32`); `None` where the bound is not a constant.
pub open spec fn bound_value(s: AstStatement) -> Option<int> {
    match constant_text(s) {
        Some(t) => Some(
            match parse_i32(t) {
                Some(v) => v,
                None => 0,
            },
        ),
        None => None,
    }
}

/// An offset of a dimension: the value of the bound, 0 where it has none.
pub open spec fn offset_value(s: AstStatement) -> int {
    match bound_value(s) {
        Some(v) => v,
        None => 0,
    }
}

/// The dimension that a range statement describes.
pub open spec fn range_dimension(s: AstStatement) -> Option<Dimension> {
    match s {
        AstStatement::RangeStatement { start, end, .. } => Some(
            Dimension {
                start_offset: offset_value(*start) as i32,
                end_offset: offset_value(*end) as i32,
            },
        ),
        _ => None,
    }
}

/// The bounds of a range statement have symbols for all their operators.
pub open spec fn range_bounds_defined(s: AstStatement) -> bool {
    match s {
        AstStatement::RangeStatement { start, end, .. } => constant_symbols_defined(*start)
            && constant_symbols_defined(*end),
        _ => true,
    }
}

fn evaluate_constant_int(s: &AstStatement) -> (r: Option<i32>)
    requires
        constant_symbols_defined(*s),
    ensures
        match r {
            Some(v) => bound_value(*s) == Some(v as int),
            None => bound_value(*s) is None,
        },
{
    match extract_value(s) {
        Ok(v) => match parse_i32_text(v.as_str()) {
            Some(x) => Some(x),
            None => Some(0),
        },
        Err(_) => None,
    }
}

/// The message for array bounds that are no range, naming the statement by
/// its text (see `debug_of`).
pub open spec fn unexpected_statement_message(s: AstStatement) -> Seq<char> {
    "Unexpected Statement "@ + debug_of(s) + ", expected range"@
}

/// The message for bounds that are no range names the statement between
/// `Unexpected Statement ` and `, expected range`.
pub proof fn lemma_unexpected_statement_message(s: AstStatement)
    ensures
        unexpected_statement_message(s) == seq!['U', 'n', 'e', 'x', 'p', 'e', 'c', 't', 'e', 'd', ' ', 'S', 't', 'a', 't', 'e', 'm', 'e', 'n', 't', ' '] + debug_of(s) + seq![',', ' ', 'e', 'x', 'p', 'e', 'c', 't', 'e', 'd', ' ', 'r', 'a', 'n', 'g', 'e'],
{
    reveal_strlit("Unexpected Statement ");
    reveal_strlit(", expected range");
    assert(unexpected_statement_message(s) =~= seq!['U', 'n', 'e', 'x', 'p', 'e', 'c', 't', 'e', 'd', ' ', 'S', 't', 'a', 't', 'e', 'm', 'e', 'n', 't', ' '] + debug_of(s) + seq![',', ' ', 'e', 'x', 'p', 'e', 'c', 't', 'e', 'd', ' ', 'r', 'a', 'n', 'g', 'e']);
}

/// The dimension of an array that a range statement `start..end` gives.
/// Any other statement is no range: the error then holds the message that
/// names it, or `None` where the statement holds a duration literal, whose
/// floating-point fields this library does not write (the caller formats
/// that message).
pub fn get_single_array_dimension(bounds: &AstStatement) -> (r: Result<Dimension, Option<String>>)
    requires
        range_bounds_defined(*bounds),
    ensures
        match range_dimension(*bounds) {
            Some(d) => r == Ok::<Dimension, Option<String>>(d),
            None => r matches Err(e) && match e {
                Some(m) => !has_duration(*bounds) && m@ == unexpected_statement_message(*bounds),
                None => has_duration(*bounds),
            },
        },
{
    if let AstStatement::RangeStatement { start, end, .. } = bounds {
        let start_offset = match evaluate_constant_int(start) {
            Some(v) => v,
            None => 0,
        };
        let end_offset = match evaluate_constant_int(end) {
            Some(v) => v,
            None => 0,
        };
        Ok(Dimension { start_offset, end_offset })
    } else {
        proof {
            reveal_strlit("Unexpected Statement ");
            reveal_strlit(", expected range");
        }
        match bounds.debug_text() {
            Some(text) => Err(
                Some(
                    String::from_str("Unexpected Statement ").concat(text.as_str()).concat(
                        ", expected range",
                    ),
                ),
            ),
            None => Err(None),
        }
    }
}

/// The dimensions of an array, one for each range of its bounds (which are
/// a single range or a list of them).
pub fn get_array_dimensions(bounds: &AstStatement) -> (r: Vec<Dimension>)
    requires
        forall|i: int|
            0 <= i < bounds.as_list().len() ==> #[trigger] range_dimension(bounds.as_list()[i])
                is Some && range_bounds_defined(bounds.as_list()[i]),
    ensures
        r@.len() == bounds.as_list().len(),
        forall|i: int|
            0 <= i < r@.len() ==> Some(#[trigger] r@[i]) == range_dimension(bounds.as_list()[i]),
{
    let list = bounds.get_as_list();
    let mut result: Vec<Dimension> = Vec::new();
    let mut i: usize = 0;
    while i < list.len()
        invariant
            i <= list.len(),
            crate::ast::deref_all(list@) == bounds.as_list(),
            result@.len() == i,
            forall|j: int|
                0 <= j < bounds.as_list().len() ==> #[trigger] range_dimension(bounds.as_list()[j])
                    is Some && range_bounds_defined(bounds.as_list()[j]),
            forall|j: int|
                0 <= j < i ==> Some(#[trigger] result@[j]) == range_dimension(bounds.as_list()[j]),
        decreases list.len() - i,
    {
        assert(*list@[i as int] == bounds.as_list()[i as int]);
        assert(range_dimension(bounds.as_list()[i as int]) is Some);
        let d = get_single_array_dimension(list[i]);
        match d {
            Ok(d) => result.push(d),
            Err(_) => {
                assert(false);
            },
        }
        i = i + 1;
    }
    result
}

} // verus!
