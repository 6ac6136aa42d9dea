//! The statements that the built-in arithmetic and comparison functions
//! stand for: `ADD(a, b, c)` is `(a + b) + c`, `GT(a, b, c)` is
//! `(a > b) AND (b > c)`.
use vstd::prelude::*;

use crate::ast::pre_processor::{lemma_id_after_add, lemma_id_after_zero};
use crate::ast::{deref_all, flatten_expression_list, flattened, id_after, AstStatement, IdProvider, Operator};

verus! {

/// The value of an argument: the right side of a named argument
/// (`param := value`), else the argument itself.
pub open spec fn actual_parameter(param: AstStatement) -> AstStatement {
    match param {
        AstStatement::Assignment { right, .. } => *right,
        _ => param,
    }
}

/// Helper function to extract the actual parameter from Assignment nodes when dealing with named arguments
fn extract_actual_parameter(param: &AstStatement) -> (r: &AstStatement)
    ensures
        *r == actual_parameter(*param),
{
    if let AstStatement::Assignment { right, .. } = param {
        // Named argument: extract the actual value from the right side of the assignment
        &**right
    } else {
        // Positional argument: use the parameter directly
        param
    }
}

/// Whether `r` joins the values of the arguments with `op` from the left:
/// `((a op b) op c) ...`, a copy of the only one where there is one, the
/// operations taking the ids from `id0` on, innermost first.
pub open spec fn arithmetic_folded(
    items: Seq<AstStatement>,
    op: Operator,
    id0: usize,
    r: AstStatement,
) -> bool
    decreases items.len(),
{
    if items.len() <= 1 {
        items.len() == 1 && r.same_as(actual_parameter(items[0]))
    } else {
        match r {
            AstStatement::BinaryExpression { operator, left, right, id } => {
                &&& operator == op
                &&& id == id_after(id0, items.len() - 2)
                &&& (*right).same_as(actual_parameter(items.last()))
                &&& arithmetic_folded(items.drop_last(), op, id0, *left)
            },
            _ => false,
        }
    }
}

/// The statement that an arithmetic built-in (`ADD`, `MUL`, `SUB`, `DIV`)
/// applied to `parameters` stands for: the values of the arguments joined
/// with `operation` from the left; ids come from `ids`.
pub fn arithmetic_replacement(parameters: &AstStatement, operation: Operator, ids: &mut IdProvider) -> (r:
    AstStatement)
    requires
        flattened(*parameters).len() >= 1,
    ensures
        arithmetic_folded(flattened(*parameters), operation, old(ids).current(), r),
        final(ids).current() == id_after(old(ids).current(), flattened(*parameters).len() - 1),
{
    let ghost items = flattened(*parameters);
    let ghost id0 = ids.current();
    let params = flatten_expression_list(parameters);
    assert(*params@[0] == items[0]);
    let mut acc = extract_actual_parameter(params[0]).deep_clone();
    proof {
        assert(items.subrange(0, 1).len() == 1);
        lemma_id_after_zero(id0);
    }
    let mut k: usize = 1;
    while k < params.len()
        invariant
            1 <= k <= params@.len(),
            deref_all(params@) == items,
            arithmetic_folded(items.subrange(0, k as int), operation, id0, acc),
            ids.current() == id_after(id0, k - 1),
        decreases params.len() - k,
    {
        assert(*params@[k as int] == items[k as int]);
        let right = extract_actual_parameter(params[k]).deep_clone();
        let id = ids.next_id();
        acc = AstStatement::BinaryExpression {
            operator: operation,
            left: Box::new(acc),
            right: Box::new(right),
            id,
        };
        proof {
            lemma_id_after_add(id0, k - 1, 1);
            let now = items.subrange(0, k + 1);
            assert(now.drop_last() =~= items.subrange(0, k as int));
            assert(now.last() == items[k as int]);
        }
        k = k + 1;
    }
    assert(items.subrange(0, params.len() as int) =~= items);
    acc
}

/// Whether `s` compares argument `k` with argument `k + 1` by `op`, with id
/// `id0 + k`.
pub open spec fn is_comparison(
    items: Seq<AstStatement>,
    op: Operator,
    id0: usize,
    k: int,
    s: AstStatement,
) -> bool {
    match s {
        AstStatement::BinaryExpression { operator, left, right, id } => {
            &&& operator == op
            &&& (*left).same_as(items[k])
            &&& (*right).same_as(items[k + 1])
            &&& id == id_after(id0, k)
        },
        _ => false,
    }
}

/// Whether `r` joins the first `k` comparisons of neighbouring arguments
/// with `AND` from the left; the `AND`s take the ids after those of all the
/// comparisons.
pub open spec fn comparisons_joined(
    items: Seq<AstStatement>,
    op: Operator,
    id0: usize,
    k: int,
    r: AstStatement,
) -> bool
    decreases k,
{
    if k <= 1 {
        k == 1 && is_comparison(items, op, id0, 0, r)
    } else {
        match r {
            AstStatement::BinaryExpression { operator, left, right, id } => {
                &&& operator == Operator::And
                &&& id == id_after(id0, items.len() - 1 + k - 2)
                &&& is_comparison(items, op, id0, k - 1, *right)
                &&& comparisons_joined(items, op, id0, k - 1, *left)
            },
            _ => false,
        }
    }
}

/// The statement that a comparison built-in (`GT`, `GE`, `EQ`, `LE`, `LT`,
/// `NE`) applied to `parameters` stands for: each argument compared with the
/// next by `operation`, the comparisons joined with `AND` from the left;
/// `None` for fewer than two arguments. Ids come from `ids`, the
/// comparisons' first.
pub fn comparison_replacement(
    parameters: &AstStatement,
    operation: Operator,
    ids: &mut IdProvider,
) -> (r: Option<AstStatement>)
    ensures
        flattened(*parameters).len() < 2 ==> r is None && final(ids).current() == old(
            ids,
        ).current(),
        flattened(*parameters).len() >= 2 ==> {
            &&& r matches Some(x) && comparisons_joined(
                flattened(*parameters),
                operation,
                old(ids).current(),
                flattened(*parameters).len() - 1,
                x,
            )
            &&& final(ids).current() == id_after(
                old(ids).current(),
                2 * flattened(*parameters).len() - 3,
            )
        },
{
    let ghost items = flattened(*parameters);
    let ghost id0 = ids.current();
    let params = flatten_expression_list(parameters);
    if params.len() < 2 {
        // no windows => less than 2 parameters, caught during validation
        return None;
    }
    proof {
        lemma_id_after_zero(id0);
    }
    let n = params.len();
    let mut comparisons: Vec<AstStatement> = Vec::new();
    let mut k: usize = 0;
    while k + 1 < n
        invariant
            n == params@.len(),
            n >= 2,
            k + 1 <= n,
            deref_all(params@) == items,
            comparisons@.len() == k,
            forall|j: int|
                0 <= j < k ==> is_comparison(items, operation, id0, j, #[trigger] comparisons@[j]),
            ids.current() == id_after(id0, k as int),
        decreases n - k,
    {
        assert(*params@[k as int] == items[k as int]);
        assert(*params@[k + 1] == items[k + 1]);
        let left = params[k].deep_clone();
        let right = params[k + 1].deep_clone();
        let id = ids.next_id();
        comparisons.push(
            AstStatement::BinaryExpression {
                operator: operation,
                left: Box::new(left),
                right: Box::new(right),
                id,
            },
        );
        proof {
            lemma_id_after_add(id0, k as int, 1);
        }
        k = k + 1;
    }
    let ghost built = comparisons@;
    let mut joined = comparisons.remove(0);
    let mut taken: usize = 1;
    while comparisons.len() > 0
        invariant
            n == items.len(),
            n >= 2,
            built.len() == n - 1,
            1 <= taken <= n - 1,
            comparisons@ == built.subrange(taken as int, n - 1),
            forall|j: int| 0 <= j < n - 1 ==> is_comparison(items, operation, id0, j, #[trigger] built[j]),
            comparisons_joined(items, operation, id0, taken as int, joined),
            ids.current() == id_after(id0, n - 1 + taken - 1),
        decreases comparisons.len(),
    {
        let right = comparisons.remove(0);
        assert(right == built[taken as int]);
        let id = ids.next_id();
        joined = AstStatement::BinaryExpression {
            operator: Operator::And,
            left: Box::new(joined),
            right: Box::new(right),
            id,
        };
        proof {
            lemma_id_after_add(id0, n - 1 + taken - 1, 1);
            assert(comparisons@ =~= built.subrange(taken + 1, n - 1));
        }
        taken = taken + 1;
    }
    Some(joined)
}

} // verus!
