use vstd::prelude::*;

use crate::ast::{AstId, AstStatement, ConditionalBlock, SourceRange};

verus! {

/// The branches of an `IF` statement.
#[derive(Debug, Clone, PartialEq)]
#[verifier::ext_equal]
pub struct IfStatement {
    pub blocks: Vec<ConditionalBlock>,
    pub else_block: Vec<AstStatement>,
}

/// A control-flow statement.
#[derive(Debug, Clone, PartialEq)]
pub enum AstControlStatement {
    IfStatement(IfStatement),
}

impl AstControlStatement {
    /// Builds an `IF` statement from its branches.
    pub fn if_statement(
        blocks: Vec<ConditionalBlock>,
        else_block: Vec<AstStatement>,
        location: SourceRange,
        id: AstId,
    ) -> (r: AstStatement)
        ensures
            r == (AstStatement::ControlStatement {
                kind: AstControlStatement::IfStatement(IfStatement { blocks, else_block }),
                location,
                id,
            }),
    {
        AstStatement::ControlStatement {
            kind: AstControlStatement::IfStatement(IfStatement { blocks, else_block }),
            location,
            id,
        }
    }
}

} // verus!
