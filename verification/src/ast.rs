use vstd::prelude::*;

pub mod control_statements;
pub mod debug_text;
pub mod declaration_text;
pub mod literals;
pub mod pre_processor;
pub mod text_laws;

use crate::ast::control_statements::AstControlStatement;
use crate::text::{i128_to_string, int_decimal};

verus! {

/// Identifies a node of the syntax tree.
pub type AstId = usize;

/// A span of the source text, from `start` (inclusive) to `end` (exclusive).
#[derive(Clone, Copy, Debug, PartialEq, Eq)]
pub struct SourceRange {
    start: usize,
    end: usize,
}

impl SourceRange {
    /// The first offset of the span.
    pub closed spec fn start_offset(self) -> usize {
        self.start
    }

    /// The offset one past the span.
    pub closed spec fn end_offset(self) -> usize {
        self.end
    }

    pub fn new(range: core::ops::Range<usize>) -> (r: SourceRange)
        ensures
            r.start_offset() == range.start,
            r.end_offset() == range.end,
    {
        SourceRange { start: range.start, end: range.end }
    }

    pub fn undefined() -> (r: SourceRange)
        ensures
            r == SourceRange::undefined_range(),
            r.start_offset() == 0,
            r.end_offset() == 0,
    {
        SourceRange { start: 0, end: 0 }
    }

    pub fn get_start(&self) -> (r: usize)
        ensures
            r == self.start_offset(),
    {
        self.start
    }

    pub fn get_end(&self) -> (r: usize)
        ensures
            r == self.end_offset(),
    {
        self.end
    }

    /// The span that starts `start` characters into this one and ends `len`
    /// characters after the start of this one.
    pub fn sub_range(&self, start: usize, len: usize) -> (r: SourceRange)
        requires
            self.start_offset() + start <= usize::MAX,
            self.start_offset() + len <= usize::MAX,
        ensures
            r.start_offset() == self.start_offset() + start,
            r.end_offset() == self.start_offset() + len,
    {
        SourceRange::new((self.get_start() + start)..(self.get_start() + len))
    }

    pub fn to_range(&self) -> (r: core::ops::Range<usize>)
        ensures
            r.start == self.start_offset(),
            r.end == self.end_offset(),
    {
        self.start..self.end
    }
}


/// How a POU may be overridden.
#[derive(Clone, Copy, Debug, PartialEq, Eq)]
pub enum PolymorphismMode {
    NoPolymorphism,
    Abstract,
    Final,
}

/// The width of a direct (bit, byte, word or double-word) access into a variable.
#[derive(Clone, Copy, Debug, PartialEq, Eq)]
pub enum DirectAccess {
    Bit,
    Byte,
    Word,
    DWord,
}

/// What direct access reads of the type it is applied to: its size in bits.
#[derive(Clone, Copy, Debug, PartialEq, Eq)]
pub struct DataTypeInformation {
    pub size: u32,
}

impl DataTypeInformation {
    pub fn get_size(&self) -> (r: u32)
        ensures
            r == self.size,
    {
        self.size
    }
}

impl DirectAccess {
    /// The number of bits that one unit of this access covers.
    pub open spec fn bit_width(self) -> u32 {
        match self {
            DirectAccess::Bit => 1,
            DirectAccess::Byte => 8,
            DirectAccess::Word => 16,
            DirectAccess::DWord => 32,
        }
    }

    /// A bit access reads one bit, a byte eight bits, a word two bytes and a
    /// double word two words.
    pub proof fn lemma_bit_widths()
        ensures
            DirectAccess::Bit.bit_width() == 1,
            DirectAccess::Byte.bit_width() == 8 * DirectAccess::Bit.bit_width(),
            DirectAccess::Word.bit_width() == 2 * DirectAccess::Byte.bit_width(),
            DirectAccess::DWord.bit_width() == 2 * DirectAccess::Word.bit_width(),
    {
    }

    /// Returns true if the current index is in the range for the given type
    pub fn is_in_range(&self, index: u32, data_type: &DataTypeInformation) -> (r: bool)
        requires
            index * self.bit_width() <= u32::MAX,
        ensures
            r == (index * self.bit_width() < data_type.size),
    {
        self.to_bits(index) < data_type.get_size()
    }

    /// Returns the range from 0 for the given data type
    pub fn get_range(&self, data_type: &DataTypeInformation) -> (r: core::ops::Range<u32>)
        requires
            data_type.size >= self.bit_width(),
        ensures
            r.start == 0,
            r.end == data_type.size / self.bit_width() - 1,
    {
        0..((data_type.get_size() / self.get_bit_witdh()) - 1)
    }

    /// Returns true if the direct access can be used for the given type
    pub fn is_compatible(&self, data_type: &DataTypeInformation) -> (r: bool)
        ensures
            r == (data_type.size > self.bit_width()),
    {
        data_type.get_size() > self.get_bit_witdh()
    }

    /// Returns the size of the bitaccess result
    pub fn get_bit_witdh(&self) -> (r: u32)
        ensures
            r == self.bit_width(),
    {
        match self {
            DirectAccess::Bit => 1,
            DirectAccess::Byte => 8,
            DirectAccess::Word => 16,
            DirectAccess::DWord => 32,
        }
    }

    /// Converts the given index to the apporpiate bit size
    pub fn to_bits(&self, index: u32) -> (r: u32)
        requires
            index * self.bit_width() <= u32::MAX,
        ensures
            r == index * self.bit_width(),
    {
        index * self.get_bit_witdh()
    }
}

/// A program organisation unit: a program, function, function block, action,
/// class or method, with its declared variables.
#[derive(Debug, Clone, PartialEq)]
pub struct Pou {
    pub name: String,
    pub variable_blocks: Vec<VariableBlock>,
    pub pou_type: PouType,
    pub return_type: Option<DataTypeDeclaration>,
    pub location: SourceRange,
    pub poly_mode: Option<PolymorphismMode>,
    pub generics: Vec<GenericBinding>,
}

/// A generic parameter of a POU (`<U: ANY>`) and the nature it is bound to.
#[derive(Debug, Clone, PartialEq)]
pub struct GenericBinding {
    pub name: String,
    pub nature: TypeNature,
}

/// The type natures that generic parameters can be bound to.
#[derive(Clone, Copy, Debug, PartialEq, Eq)]
pub enum TypeNature {
    Any,
    Derived,
    Elementary,
    Magnitude,
    Num,
    Real,
    Int,
    Signed,
    Unsigned,
    Duration,
    Bit,
    Chars,
    String,
    Char,
    Date,
}

/// The body of a POU.
#[derive(Debug, Clone, PartialEq)]
pub struct Implementation {
    pub name: String,
    pub type_identifier: String,
    pub linkage: LinkageType,
    pub pou_type: PouType,
    pub statements: Vec<AstStatement>,
    pub location: SourceRange,
    pub overriding: bool,
    pub access: Option<AccessModifier>,
}

#[derive(Clone, Copy, Debug, PartialEq, Eq)]
pub enum LinkageType {
    Internal,
    External,
}

#[derive(Clone, Copy, Debug, PartialEq, Eq)]
pub enum AccessModifier {
    Private,
    Public,
    Protected,  // default
    Internal,
}

#[derive(Debug, Clone, PartialEq)]
pub enum PouType {
    Program,
    Function,
    FunctionBlock,
    Action,
    Class,
    Method { owner_class: String },
}

impl PouType {
    /// returns Some(owner_class) if this is a `Method` or otherwhise `None`
    pub fn get_optional_owner_class(&self) -> (r: Option<String>)
        ensures
            match self {
                PouType::Method { owner_class } => r matches Some(o) && o@ == owner_class@,
                _ => r is None,
            },
    {
        if let PouType::Method { owner_class } = self {
            Some(owner_class.clone())
        } else {
            None
        }
    }
}

/// Everything that one source file declares.
#[derive(Debug, Clone, PartialEq)]
pub struct CompilationUnit {
    pub global_vars: Vec<VariableBlock>,
    pub units: Vec<Pou>,
    pub implementations: Vec<Implementation>,
    pub types: Vec<UserTypeDeclaration>,
}

#[derive(Clone, Copy, Debug, PartialEq, Eq)]
pub enum VariableBlockType {
    Local,
    Temp,
    Input,
    Output,
    Global,
    InOut,
}

/// A `VAR ... END_VAR` block.
#[derive(Debug, Clone, PartialEq)]
pub struct VariableBlock {
    pub access: AccessModifier,
    pub constant: bool,
    pub retain: bool,
    pub variables: Vec<Variable>,
    pub variable_block_type: VariableBlockType,
}

/// A declared variable, its type and its optional initial value.
#[derive(Debug, PartialEq)]
pub struct Variable {
    pub name: String,
    pub data_type: DataTypeDeclaration,
    pub initializer: Option<AstStatement>,
    pub location: SourceRange,
}

/// A data type as a declaration names it: by reference to a named type, or
/// defined in place.
#[derive(Debug, PartialEq)]
pub enum DataTypeDeclaration {
    DataTypeReference { referenced_type: String, location: SourceRange },
    DataTypeDefinition { data_type: DataType, location: SourceRange, scope: Option<String> },
}

/// A user-defined type at the top level of a unit.
#[derive(Debug, Clone, PartialEq)]
pub struct UserTypeDeclaration {
    pub data_type: DataType,
    pub initializer: Option<AstStatement>,
    pub location: SourceRange,
    pub scope: Option<String>,
}

#[derive(Debug, PartialEq)]
pub enum DataType {
    StructType {
        name: Option<String>,  //maybe None for inline structs
        variables: Vec<Variable>,
    },
    EnumType {
        name: Option<String>,  //maybe empty for inline enums
        elements: AstStatement,
    },
    SubRangeType { name: Option<String>, referenced_type: String, bounds: Option<AstStatement> },
    ArrayType {
        name: Option<String>,
        bounds: AstStatement,
        referenced_type: Box<DataTypeDeclaration>,
    },
    PointerType { name: Option<String>, referenced_type: Box<DataTypeDeclaration> },
    StringType {
        name: Option<String>,
        is_wide: bool,  //WSTRING
        size: Option<AstStatement>,
    },
    VarArgs { referenced_type: Option<Box<DataTypeDeclaration>> },
    GenericType { name: String, generic_symbol: String, nature: TypeNature },
}

/// A condition and the statements it guards.
#[derive(Debug, Clone, PartialEq)]
pub struct ConditionalBlock {
    pub condition: Box<AstStatement>,
    pub body: Vec<AstStatement>,
}

/// A statement or expression of the syntax tree. The fractional parts of a
/// `LiteralTime` are held as the bit patterns of their `f64` values.
#[derive(Debug, PartialEq)]
pub enum AstStatement {
    EmptyStatement { location: SourceRange, id: AstId },
    // Literals
    LiteralInteger { value: i128, location: SourceRange, id: AstId },
    LiteralDate { year: i32, month: u32, day: u32, location: SourceRange, id: AstId },
    LiteralDateAndTime {
        year: i32,
        month: u32,
        day: u32,
        hour: u32,
        min: u32,
        sec: u32,
        milli: u32,
        location: SourceRange,
        id: AstId,
    },
    LiteralTimeOfDay { hour: u32, min: u32, sec: u32, milli: u32, location: SourceRange, id: AstId },
    LiteralTime {
        day: u64,
        hour: u64,
        min: u64,
        sec: u64,
        milli: u64,
        micro: u64,
        nano: u32,
        negative: bool,
        location: SourceRange,
        id: AstId,
    },
    LiteralReal { value: String, location: SourceRange, id: AstId },
    LiteralBool { value: bool, location: SourceRange, id: AstId },
    LiteralString { value: String, is_wide: bool, location: SourceRange, id: AstId },
    LiteralArray {
        elements: Option<Box<AstStatement>>,  // expression-list
        location: SourceRange,
        id: AstId,
    },
    CastStatement { target: Box<AstStatement>, type_identifier: String, location: SourceRange, id: AstId },
    MultipliedStatement {
        multiplier: u32,
        element: Box<AstStatement>,
        location: SourceRange,
        id: AstId,
    },
    // Expressions
    QualifiedReference { elements: Vec<AstStatement>, id: AstId },
    Reference { name: String, location: SourceRange, id: AstId },
    ArrayAccess { reference: Box<AstStatement>, access: Box<AstStatement>, id: AstId },
    PointerAccess { reference: Box<AstStatement>, id: AstId },
    DirectAccess { access: DirectAccess, index: u32, location: SourceRange, id: AstId },
    BinaryExpression {
        operator: Operator,
        left: Box<AstStatement>,
        right: Box<AstStatement>,
        id: AstId,
    },
    UnaryExpression {
        operator: Operator,
        value: Box<AstStatement>,
        location: SourceRange,
        id: AstId,
    },
    ExpressionList { expressions: Vec<AstStatement>, id: AstId },
    RangeStatement { start: Box<AstStatement>, end: Box<AstStatement>, id: AstId },
    // Assignment
    Assignment { left: Box<AstStatement>, right: Box<AstStatement>, id: AstId },
    // OutputAssignment
    OutputAssignment { left: Box<AstStatement>, right: Box<AstStatement>, id: AstId },
    //Call Statement
    CallStatement {
        operator: Box<AstStatement>,
        parameters: Box<Option<AstStatement>>,
        location: SourceRange,
        id: AstId,
    },
    // Control Statements
    ControlStatement { kind: AstControlStatement, location: SourceRange, id: AstId },
    IfStatement {
        blocks: Vec<ConditionalBlock>,
        else_block: Vec<AstStatement>,
        location: SourceRange,
        id: AstId,
    },
    ForLoopStatement {
        counter: Box<AstStatement>,
        start: Box<AstStatement>,
        end: Box<AstStatement>,
        by_step: Option<Box<AstStatement>>,
        body: Vec<AstStatement>,
        location: SourceRange,
        id: AstId,
    },
    WhileLoopStatement {
        condition: Box<AstStatement>,
        body: Vec<AstStatement>,
        location: SourceRange,
        id: AstId,
    },
    RepeatLoopStatement {
        condition: Box<AstStatement>,
        body: Vec<AstStatement>,
        location: SourceRange,
        id: AstId,
    },
    CaseStatement {
        selector: Box<AstStatement>,
        case_blocks: Vec<ConditionalBlock>,
        else_block: Vec<AstStatement>,
        location: SourceRange,
        id: AstId,
    },
    CaseCondition { condition: Box<AstStatement>, id: AstId },
    ExitStatement { location: SourceRange, id: AstId },
    ContinueStatement { location: SourceRange, id: AstId },
    ReturnStatement { location: SourceRange, id: AstId },
    LiteralNull { location: SourceRange, id: AstId },
}

#[derive(Clone, Copy, Debug, PartialEq, Eq)]
pub enum Operator {
    Plus,
    Minus,
    Multiplication,
    Division,
    Equal,
    NotEqual,
    Modulo,
    Less,
    Greater,
    LessOrEqual,
    GreaterOrEqual,
    Not,
    And,
    Or,
    Xor,
    Address,
}

impl Operator {
    /// Whether the operator has a textual symbol.
    pub open spec fn has_symbol(self) -> bool {
        match self {
            Operator::Plus | Operator::Minus | Operator::Multiplication | Operator::Division
            | Operator::Equal => true,
            _ => false,
        }
    }

    /// The symbol of the operator.
    pub open spec fn symbol_text(self) -> Seq<char> {
        match self {
            Operator::Plus => seq!['+'],
            Operator::Minus => seq!['-'],
            Operator::Multiplication => seq!['*'],
            Operator::Division => seq!['/'],
            Operator::Equal => seq!['='],
            _ => seq![],
        }
    }

    /// The symbol that the operator is written with; the operators other
    /// than `+ - * / =` have none.
    pub fn symbol(&self) -> (r: String)
        requires
            self.has_symbol(),
        ensures
            r@ == self.symbol_text(),
    {
        let text = match self {
            Operator::Plus => "+",
            Operator::Minus => "-",
            Operator::Multiplication => "*",
            Operator::Division => "/",
            _ => "=",
        };
        proof {
            reveal_strlit("+");
            reveal_strlit("-");
            reveal_strlit("*");
            reveal_strlit("/");
            reveal_strlit("=");
        }
        String::from_str(text)
    }
}

/// The text that a compile-time constant expression stands for: an integer
/// literal's decimal text, with the symbols of the unary operators applied to
/// it in front; `None` for any other expression.
pub open spec fn constant_text(s: AstStatement) -> Option<Seq<char>>
    decreases s,
{
    match s {
        AstStatement::UnaryExpression { operator, value, .. } => match constant_text(*value) {
            Some(t) => Some(operator.symbol_text() + t),
            None => None,
        },
        AstStatement::LiteralInteger { value, .. } => Some(int_decimal(value as int)),
        _ => None,
    }
}

/// Every unary operator on the way to an integer literal has a symbol.
pub open spec fn constant_symbols_defined(s: AstStatement) -> bool
    decreases s,
{
    match s {
        AstStatement::UnaryExpression { operator, value, .. } => constant_text(*value) is Some
            ==> (operator.has_symbol() && constant_symbols_defined(*value)),
        _ => true,
    }
}

/// The message of an expression whose value cannot be derived at compile time.
pub open spec fn unsupported_statement_message() -> Seq<char> {
    "Unsupported Statement. Cannot evaluate expression."@
}

/// The message of an expression whose value cannot be derived at compile
/// time reads `Unsupported Statement. Cannot evaluate expression.`.
pub proof fn lemma_unsupported_statement_message()
    ensures
        unsupported_statement_message() == seq!['U', 'n', 's', 'u', 'p', 'p', 'o', 'r', 't', 'e', 'd', ' ', 'S', 't', 'a', 't', 'e', 'm', 'e', 'n', 't', '.', ' ', 'C', 'a', 'n', 'n', 'o', 't', ' ', 'e', 'v', 'a', 'l', 'u', 'a', 't', 'e', ' ', 'e', 'x', 'p', 'r', 'e', 's', 's', 'i', 'o', 'n', '.'],
{
    reveal_strlit("Unsupported Statement. Cannot evaluate expression.");
    assert(unsupported_statement_message() =~= seq!['U', 'n', 's', 'u', 'p', 'p', 'o', 'r', 't', 'e', 'd', ' ', 'S', 't', 'a', 't', 'e', 'm', 'e', 'n', 't', '.', ' ', 'C', 'a', 'n', 'n', 'o', 't', ' ', 'e', 'v', 'a', 'l', 'u', 'a', 't', 'e', ' ', 'e', 'x', 'p', 'r', 'e', 's', 's', 'i', 'o', 'n', '.']);
}

/// extracts the compile-time value of the given statement.
/// returns an error if no value can be derived at compile-time
pub fn extract_value(s: &AstStatement) -> (r: Result<String, String>)
    requires
        constant_symbols_defined(*s),
    ensures
        match constant_text(*s) {
            Some(t) => r matches Ok(v) && v@ == t,
            None => r matches Err(e) && e@ == unsupported_statement_message(),
        },
    decreases s,
{
    match s {
        AstStatement::UnaryExpression { operator, value, .. } => {
            match extract_value(value) {
                Ok(result) => {
                    let symbol = operator.symbol();
                    Ok(symbol.concat(result.as_str()))
                },
                Err(e) => Err(e),
            }
        },
        AstStatement::LiteralInteger { value, .. } => Ok(i128_to_string(*value)),
        _ => Err(String::from_str("Unsupported Statement. Cannot evaluate expression.")),
    }
}

/// The value of a compile-time constant integer expression: an integer
/// literal's value; a unary `-` negates the value of its operand and a unary
/// `+` keeps it. Where the negation leaves the range of `i128`, and for the
/// other unary operators, which have no arithmetic meaning on one operand,
/// the value is 0. `None` for any other expression.
pub open spec fn constant_value(s: AstStatement) -> Option<int>
    decreases s,
{
    match s {
        AstStatement::LiteralInteger { value, .. } => Some(value as int),
        AstStatement::UnaryExpression { operator, value, .. } => match constant_value(*value) {
            Some(v) => Some(
                match operator {
                    Operator::Minus => if i128::MIN <= -v <= i128::MAX {
                        -v
                    } else {
                        0
                    },
                    Operator::Plus => v,
                    _ => 0,
                },
            ),
            None => None,
        },
        _ => None,
    }
}

/// The value of a constant expression, computed on `i128`.
fn constant_int_value(s: &AstStatement) -> (r: Option<i128>)
    ensures
        match r {
            Some(v) => constant_value(*s) == Some(v as int),
            None => constant_value(*s) is None,
        },
    decreases s,
{
    match s {
        AstStatement::LiteralInteger { value, .. } => Some(*value),
        AstStatement::UnaryExpression { operator, value, .. } => match constant_int_value(value) {
            Some(v) => Some(
                match operator {
                    Operator::Minus => if v == i128::MIN {
                        0
                    } else {
                        -v
                    },
                    Operator::Plus => v,
                    _ => 0,
                },
            ),
            None => None,
        },
        _ => None,
    }
}

/// evaluate the given statemetn as i128
pub fn evaluate_constant_int(s: &AstStatement) -> (r: Result<i128, String>)
    requires
        constant_symbols_defined(*s),
    ensures
        match constant_value(*s) {
            Some(v) => r matches Ok(x) && x == v,
            None => r matches Err(e) && e@ == unsupported_statement_message(),
        },
{
    match constant_int_value(s) {
        Some(v) => Ok(v),
        None => Err(String::from_str("Unsupported Statement. Cannot evaluate expression.")),
    }
}

/// The value of a constant expression is always one that an `i128` holds.
pub proof fn lemma_constant_value_in_range(s: AstStatement)
    ensures
        constant_value(s) matches Some(v) ==> i128::MIN <= v <= i128::MAX,
    decreases s,
{
    if let AstStatement::UnaryExpression { value, .. } = s {
        lemma_constant_value_in_range(*value);
    }
}

/// Evaluating an integer literal gives its value.
pub proof fn lemma_literal_evaluates_to_its_value(value: i128, location: SourceRange, id: AstId)
    ensures
        constant_value(AstStatement::LiteralInteger { value, location, id }) == Some(value as int),
{
}

/// A unary minus negates the value of its operand, where the negation fits
/// an `i128`.
pub proof fn lemma_minus_negates(operand: AstStatement, location: SourceRange, id: AstId)
    requires
        constant_value(operand) matches Some(v) && v != i128::MIN,
    ensures
        constant_value(
            AstStatement::UnaryExpression {
                operator: Operator::Minus,
                value: Box::new(operand),
                location,
                id,
            },
        ) == Some(-constant_value(operand).unwrap()),
{
    lemma_constant_value_in_range(operand);
}

/// Negating a constant twice gives its value back, where the negation fits
/// an `i128`.
pub proof fn lemma_double_minus_cancels(
    operand: AstStatement,
    inner_location: SourceRange,
    inner_id: AstId,
    location: SourceRange,
    id: AstId,
)
    requires
        constant_value(operand) matches Some(v) && v != i128::MIN,
    ensures
        constant_value(
            AstStatement::UnaryExpression {
                operator: Operator::Minus,
                value: Box::new(
                    AstStatement::UnaryExpression {
                        operator: Operator::Minus,
                        value: Box::new(operand),
                        location: inner_location,
                        id: inner_id,
                    },
                ),
                location,
                id,
            },
        ) == constant_value(operand),
{
    lemma_constant_value_in_range(operand);
    lemma_minus_negates(operand, inner_location, inner_id);
    let inner = AstStatement::UnaryExpression {
        operator: Operator::Minus,
        value: Box::new(operand),
        location: inner_location,
        id: inner_id,
    };
    lemma_minus_negates(inner, location, id);
}

impl AstStatement {
    /// The id of the node.
    pub open spec fn id_of(self) -> AstId {
        match self {
            AstStatement::EmptyStatement { id, .. } => id,
            AstStatement::LiteralInteger { id, .. } => id,
            AstStatement::LiteralDate { id, .. } => id,
            AstStatement::LiteralDateAndTime { id, .. } => id,
            AstStatement::LiteralTimeOfDay { id, .. } => id,
            AstStatement::LiteralTime { id, .. } => id,
            AstStatement::LiteralReal { id, .. } => id,
            AstStatement::LiteralBool { id, .. } => id,
            AstStatement::LiteralString { id, .. } => id,
            AstStatement::LiteralArray { id, .. } => id,
            AstStatement::CastStatement { id, .. } => id,
            AstStatement::MultipliedStatement { id, .. } => id,
            AstStatement::QualifiedReference { id, .. } => id,
            AstStatement::Reference { id, .. } => id,
            AstStatement::ArrayAccess { id, .. } => id,
            AstStatement::PointerAccess { id, .. } => id,
            AstStatement::DirectAccess { id, .. } => id,
            AstStatement::BinaryExpression { id, .. } => id,
            AstStatement::UnaryExpression { id, .. } => id,
            AstStatement::ExpressionList { id, .. } => id,
            AstStatement::RangeStatement { id, .. } => id,
            AstStatement::Assignment { id, .. } => id,
            AstStatement::OutputAssignment { id, .. } => id,
            AstStatement::CallStatement { id, .. } => id,
            AstStatement::ControlStatement { id, .. } => id,
            AstStatement::IfStatement { id, .. } => id,
            AstStatement::ForLoopStatement { id, .. } => id,
            AstStatement::WhileLoopStatement { id, .. } => id,
            AstStatement::RepeatLoopStatement { id, .. } => id,
            AstStatement::CaseStatement { id, .. } => id,
            AstStatement::CaseCondition { id, .. } => id,
            AstStatement::ExitStatement { id, .. } => id,
            AstStatement::ContinueStatement { id, .. } => id,
            AstStatement::ReturnStatement { id, .. } => id,
            AstStatement::LiteralNull { id, .. } => id,
        }
    }

    pub fn get_id(&self) -> (r: AstId)
        ensures
            r == self.id_of(),
    {
        match self {
            AstStatement::EmptyStatement { id, .. } => *id,
            AstStatement::LiteralInteger { id, .. } => *id,
            AstStatement::LiteralDate { id, .. } => *id,
            AstStatement::LiteralDateAndTime { id, .. } => *id,
            AstStatement::LiteralTimeOfDay { id, .. } => *id,
            AstStatement::LiteralTime { id, .. } => *id,
            AstStatement::LiteralReal { id, .. } => *id,
            AstStatement::LiteralBool { id, .. } => *id,
            AstStatement::LiteralString { id, .. } => *id,
            AstStatement::LiteralArray { id, .. } => *id,
            AstStatement::CastStatement { id, .. } => *id,
            AstStatement::MultipliedStatement { id, .. } => *id,
            AstStatement::QualifiedReference { id, .. } => *id,
            AstStatement::Reference { id, .. } => *id,
            AstStatement::ArrayAccess { id, .. } => *id,
            AstStatement::PointerAccess { id, .. } => *id,
            AstStatement::DirectAccess { id, .. } => *id,
            AstStatement::BinaryExpression { id, .. } => *id,
            AstStatement::UnaryExpression { id, .. } => *id,
            AstStatement::ExpressionList { id, .. } => *id,
            AstStatement::RangeStatement { id, .. } => *id,
            AstStatement::Assignment { id, .. } => *id,
            AstStatement::OutputAssignment { id, .. } => *id,
            AstStatement::CallStatement { id, .. } => *id,
            AstStatement::ControlStatement { id, .. } => *id,
            AstStatement::IfStatement { id, .. } => *id,
            AstStatement::ForLoopStatement { id, .. } => *id,
            AstStatement::WhileLoopStatement { id, .. } => *id,
            AstStatement::RepeatLoopStatement { id, .. } => *id,
            AstStatement::CaseStatement { id, .. } => *id,
            AstStatement::CaseCondition { id, .. } => *id,
            AstStatement::ExitStatement { id, .. } => *id,
            AstStatement::ContinueStatement { id, .. } => *id,
            AstStatement::ReturnStatement { id, .. } => *id,
            AstStatement::LiteralNull { id, .. } => *id,
        }
    }
}

/// The span from the start of `first` to the end of `last`.
pub closed spec fn span_of(first: SourceRange, last: SourceRange) -> SourceRange {
    SourceRange { start: first.start, end: last.end }
}

/// A span runs from the start of its first range to the end of its last.
pub proof fn lemma_span_of(first: SourceRange, last: SourceRange)
    ensures
        span_of(first, last).start_offset() == first.start_offset(),
        span_of(first, last).end_offset() == last.end_offset(),
{
}

/// Two source ranges with the same offsets are the same range.
pub proof fn lemma_source_range_equal(a: SourceRange, b: SourceRange)
    requires
        a.start_offset() == b.start_offset(),
        a.end_offset() == b.end_offset(),
    ensures
        a == b,
{
}

/// The range of a node without a place in the source is `0..0`.
pub proof fn lemma_undefined_range_offsets()
    ensures
        SourceRange::undefined_range().start_offset() == 0,
        SourceRange::undefined_range().end_offset() == 0,
{
}

impl AstStatement {
    /// The span of source text that the node covers.
    pub open spec fn location_of(self) -> SourceRange
        decreases self,
    {
        match self {
            AstStatement::EmptyStatement { location, .. } => location,
            AstStatement::LiteralInteger { location, .. } => location,
            AstStatement::LiteralDate { location, .. } => location,
            AstStatement::LiteralDateAndTime { location, .. } => location,
            AstStatement::LiteralTimeOfDay { location, .. } => location,
            AstStatement::LiteralTime { location, .. } => location,
            AstStatement::LiteralReal { location, .. } => location,
            AstStatement::LiteralBool { location, .. } => location,
            AstStatement::LiteralString { location, .. } => location,
            AstStatement::LiteralArray { location, .. } => location,
            AstStatement::CastStatement { location, .. } => location,
            AstStatement::MultipliedStatement { location, .. } => location,
            AstStatement::Reference { location, .. } => location,
            AstStatement::DirectAccess { location, .. } => location,
            AstStatement::UnaryExpression { location, .. } => location,
            AstStatement::CallStatement { location, .. } => location,
            AstStatement::ControlStatement { location, .. } => location,
            AstStatement::IfStatement { location, .. } => location,
            AstStatement::ForLoopStatement { location, .. } => location,
            AstStatement::WhileLoopStatement { location, .. } => location,
            AstStatement::RepeatLoopStatement { location, .. } => location,
            AstStatement::CaseStatement { location, .. } => location,
            AstStatement::ExitStatement { location, .. } => location,
            AstStatement::ContinueStatement { location, .. } => location,
            AstStatement::ReturnStatement { location, .. } => location,
            AstStatement::LiteralNull { location, .. } => location,
            AstStatement::QualifiedReference { elements, .. } => if elements@.len() == 0 {
                SourceRange::undefined_range()
            } else {
                span_of(elements@[0].location_of(), elements@[elements@.len() - 1].location_of())
            },
            AstStatement::ExpressionList { expressions, .. } => if expressions@.len() == 0 {
                SourceRange::undefined_range()
            } else {
                span_of(
                    expressions@[0].location_of(),
                    expressions@[expressions@.len() - 1].location_of(),
                )
            },
            AstStatement::BinaryExpression { left, right, .. } => span_of(
                left.location_of(),
                right.location_of(),
            ),
            AstStatement::RangeStatement { start, end, .. } => span_of(
                start.location_of(),
                end.location_of(),
            ),
            AstStatement::Assignment { left, right, .. } => span_of(
                left.location_of(),
                right.location_of(),
            ),
            AstStatement::OutputAssignment { left, right, .. } => span_of(
                left.location_of(),
                right.location_of(),
            ),
            AstStatement::ArrayAccess { reference, access, .. } => span_of(
                reference.location_of(),
                access.location_of(),
            ),
            AstStatement::PointerAccess { reference, .. } => reference.location_of(),
            AstStatement::CaseCondition { condition, .. } => condition.location_of(),
        }
    }

    pub fn get_location(&self) -> (r: SourceRange)
        ensures
            r == self.location_of(),
        decreases self,
    {
        match self {
            AstStatement::EmptyStatement { location, .. } => *location,
            AstStatement::LiteralInteger { location, .. } => *location,
            AstStatement::LiteralDate { location, .. } => *location,
            AstStatement::LiteralDateAndTime { location, .. } => *location,
            AstStatement::LiteralTimeOfDay { location, .. } => *location,
            AstStatement::LiteralTime { location, .. } => *location,
            AstStatement::LiteralReal { location, .. } => *location,
            AstStatement::LiteralBool { location, .. } => *location,
            AstStatement::LiteralString { location, .. } => *location,
            AstStatement::LiteralArray { location, .. } => *location,
            AstStatement::CastStatement { location, .. } => *location,
            AstStatement::MultipliedStatement { location, .. } => *location,
            AstStatement::Reference { location, .. } => *location,
            AstStatement::DirectAccess { location, .. } => *location,
            AstStatement::UnaryExpression { location, .. } => *location,
            AstStatement::CallStatement { location, .. } => *location,
            AstStatement::ControlStatement { location, .. } => *location,
            AstStatement::IfStatement { location, .. } => *location,
            AstStatement::ForLoopStatement { location, .. } => *location,
            AstStatement::WhileLoopStatement { location, .. } => *location,
            AstStatement::RepeatLoopStatement { location, .. } => *location,
            AstStatement::CaseStatement { location, .. } => *location,
            AstStatement::ExitStatement { location, .. } => *location,
            AstStatement::ContinueStatement { location, .. } => *location,
            AstStatement::ReturnStatement { location, .. } => *location,
            AstStatement::LiteralNull { location, .. } => *location,
            AstStatement::QualifiedReference { elements, .. } => {
                let first = if elements.len() > 0 {
                    elements[0].get_location()
                } else {
                    SourceRange::undefined()
                };
                let last = if elements.len() > 0 {
                    elements[elements.len() - 1].get_location()
                } else {
                    SourceRange::undefined()
                };
                SourceRange::new(first.get_start()..last.get_end())
            },
            AstStatement::ExpressionList { expressions, .. } => {
                let first = if expressions.len() > 0 {
                    expressions[0].get_location()
                } else {
                    SourceRange::undefined()
                };
                let last = if expressions.len() > 0 {
                    expressions[expressions.len() - 1].get_location()
                } else {
                    SourceRange::undefined()
                };
                SourceRange::new(first.get_start()..last.get_end())
            },
            AstStatement::BinaryExpression { left, right, .. } => {
                let left_loc = left.get_location();
                let right_loc = right.get_location();
                SourceRange::new(left_loc.start..right_loc.end)
            },
            AstStatement::RangeStatement { start, end, .. } => {
                let start_loc = start.get_location();
                let end_loc = end.get_location();
                SourceRange::new(start_loc.start..end_loc.end)
            },
            AstStatement::Assignment { left, right, .. } => {
                let left_loc = left.get_location();
                let right_loc = right.get_location();
                SourceRange::new(left_loc.start..right_loc.end)
            },
            AstStatement::OutputAssignment { left, right, .. } => {
                let left_loc = left.get_location();
                let right_loc = right.get_location();
                SourceRange::new(left_loc.start..right_loc.end)
            },
            AstStatement::ArrayAccess { reference, access, .. } => {
                let reference_loc = reference.get_location();
                let access_loc = access.get_location();
                SourceRange::new(reference_loc.start..access_loc.end)
            },
            AstStatement::PointerAccess { reference, .. } => reference.get_location(),
            AstStatement::CaseCondition { condition, .. } => condition.get_location(),
        }
    }
}

/// The statements that a sequence of references points to.
pub open spec fn deref_all(items: Seq<&AstStatement>) -> Seq<AstStatement> {
    items.map_values(|x: &AstStatement| *x)
}

impl AstStatement {
    /// The statements of an expression list, or the statement itself.
    pub open spec fn as_list(self) -> Seq<AstStatement> {
        match self {
            AstStatement::ExpressionList { expressions, .. } => expressions@,
            _ => seq![self],
        }
    }

    ///Returns the statement in a singleton list, or the contained statements if the statement is already a list
    pub fn get_as_list(&self) -> (r: Vec<&AstStatement>)
        ensures
            deref_all(r@) == self.as_list(),
    {
        if let AstStatement::ExpressionList { expressions, .. } = self {
            let mut result: Vec<&AstStatement> = Vec::new();
            let mut i: usize = 0;
            while i < expressions.len()
                invariant
                    i <= expressions.len(),
                    deref_all(result@) == expressions@.subrange(0, i as int),
                decreases expressions.len() - i,
            {
                let ghost before = result@;
                result.push(&expressions[i]);
                i = i + 1;
                assert(result@ =~= before.push(&expressions@[i - 1]));
                assert(deref_all(result@) =~= deref_all(before).push(expressions@[i - 1]));
                assert(expressions@.subrange(0, i as int) =~= expressions@.subrange(0, i - 1).push(expressions@[i - 1]));
                assert(deref_all(result@) =~= expressions@.subrange(0, i as int));
            }
            assert(expressions@.subrange(0, expressions.len() as int) =~= expressions@);
            result
        } else {
            vec![self]
        }
    }
}

/// `items` written `n` times one after the other.
pub open spec fn repeat_seq(items: Seq<AstStatement>, n: nat) -> Seq<AstStatement>
    decreases n,
{
    if n == 0 {
        seq![]
    } else {
        repeat_seq(items, (n - 1) as nat) + items
    }
}

/// The statements that an expression list stands for, with nested lists
/// flattened and each multiplied statement `n(x)` written as `n` copies of
/// what `x` stands for.
pub open spec fn flattened(s: AstStatement) -> Seq<AstStatement>
    decreases s,
{
    match s {
        AstStatement::ExpressionList { expressions, .. } => flattened_all(expressions@),
        AstStatement::MultipliedStatement { multiplier, element, .. } => repeat_seq(
            flattened(*element),
            multiplier as nat,
        ),
        _ => seq![s],
    }
}

/// The statements that each of `items` stands for, one after the other.
pub open spec fn flattened_all(items: Seq<AstStatement>) -> Seq<AstStatement>
    decreases items,
{
    if items.len() == 0 {
        seq![]
    } else {
        flattened_all(items.drop_last()) + flattened(items.last())
    }
}

/// flattens expression-lists and MultipliedStatements into a vec of statements.
/// It can also handle nested structures like 2(3(4,5))
#[verifier::loop_isolation(false)]
pub fn flatten_expression_list(condition: &AstStatement) -> (r: Vec<&AstStatement>)
    ensures
        deref_all(r@) == flattened(*condition),
    decreases condition,
{
    match condition {
        AstStatement::ExpressionList { expressions, .. } => {
            let mut result: Vec<&AstStatement> = Vec::new();
            let mut i: usize = 0;
            while i < expressions.len()
                invariant
                    i <= expressions.len(),
                    deref_all(result@) == flattened_all(expressions@.subrange(0, i as int)),
                decreases expressions.len() - i,
            {
                let part = flatten_expression_list(&expressions[i]);
                let ghost before = result@;
                let mut k: usize = 0;
                while k < part.len()
                    invariant
                        k <= part.len(),
                        deref_all(result@) == deref_all(before) + deref_all(part@).subrange(0, k as int),
                    decreases part.len() - k,
                {
                    let ghost mid = result@;
                    result.push(part[k]);
                    k = k + 1;
                    assert(result@ =~= mid.push(part@[k - 1]));
                    assert(deref_all(result@) =~= deref_all(mid).push(*part@[k - 1]));
                    assert(deref_all(result@) =~= deref_all(before) + deref_all(part@).subrange(0, k as int));
                }
                assert(deref_all(part@).subrange(0, part.len() as int) =~= deref_all(part@));
                assert(expressions@.subrange(0, i + 1).drop_last() =~= expressions@.subrange(0, i as int));
                i = i + 1;
            }
            assert(expressions@.subrange(0, expressions.len() as int) =~= expressions@);
            result
        },
        AstStatement::MultipliedStatement { multiplier, element, .. } => {
            let part = flatten_expression_list(element);
            let mut result: Vec<&AstStatement> = Vec::new();
            let mut n: u32 = 0;
            while n < *multiplier
                invariant
                    n <= *multiplier,
                    deref_all(result@) == repeat_seq(deref_all(part@), n as nat),
                decreases *multiplier - n,
            {
                let ghost before = result@;
                let mut k: usize = 0;
                while k < part.len()
                    invariant
                        k <= part.len(),
                        deref_all(result@) == deref_all(before) + deref_all(part@).subrange(0, k as int),
                    decreases part.len() - k,
                {
                    let ghost mid = result@;
                    result.push(part[k]);
                    k = k + 1;
                    assert(result@ =~= mid.push(part@[k - 1]));
                    assert(deref_all(result@) =~= deref_all(mid).push(*part@[k - 1]));
                    assert(deref_all(result@) =~= deref_all(before) + deref_all(part@).subrange(0, k as int));
                }
                assert(deref_all(part@).subrange(0, part.len() as int) =~= deref_all(part@));
                n = n + 1;
            }
            result
        },
        _ => vec![condition],
    }
}

/// The part of `s` after its last `.`, or all of `s` where it has none.
pub open spec fn last_segment(s: Seq<char>) -> Seq<char>
    decreases s.len(),
{
    if s.len() == 0 {
        s
    } else if s.last() == '.' {
        seq![]
    } else {
        last_segment(s.drop_last()).push(s.last())
    }
}

/// The position of the first character after the last `.` of `s` (0 where
/// there is none).
pub open spec fn last_segment_start(s: Seq<char>) -> int
    decreases s.len(),
{
    if s.len() == 0 {
        0
    } else if s.last() == '.' {
        s.len() as int
    } else {
        last_segment_start(s.drop_last())
    }
}

proof fn lemma_last_segment_start(s: Seq<char>)
    ensures
        0 <= last_segment_start(s) <= s.len(),
        s.subrange(last_segment_start(s), s.len() as int) == last_segment(s),
    decreases s.len(),
{
    if s.len() > 0 && s.last() != '.' {
        lemma_last_segment_start(s.drop_last());
        let k = last_segment_start(s.drop_last());
        assert(s.subrange(k, s.len() as int) =~= s.drop_last().subrange(k, s.len() - 1).push(s.last()));
    } else if s.len() > 0 {
        assert(s.subrange(s.len() as int, s.len() as int) =~= Seq::<char>::empty());
    }
}

impl Pou {
    /// The name of the variable that holds the POU's return value: the last
    /// `.`-separated part of its name.
    pub fn get_return_name(&self) -> (r: &str)
        ensures
            r@ == last_segment(self.name@),
    {
        Pou::calc_return_name(self.name.as_str())
    }

    /// The last `.`-separated part of `pou_name`.
    pub fn calc_return_name(pou_name: &str) -> (r: &str)
        ensures
            r@ == last_segment(pou_name@),
    {
        let len = pou_name.unicode_len();
        let mut start: usize = 0;
        let mut i: usize = 0;
        while i < len
            invariant
                len == pou_name@.len(),
                i <= len,
                start == last_segment_start(pou_name@.subrange(0, i as int)),
            decreases len - i,
        {
            let c = pou_name.get_char(i);
            assert(pou_name@.subrange(0, i + 1).drop_last() =~= pou_name@.subrange(0, i as int));
            if c == '.' {
                start = i + 1;
            }
            i = i + 1;
        }
        proof {
            assert(pou_name@.subrange(0, len as int) =~= pou_name@);
            lemma_last_segment_start(pou_name@);
        }
        pou_name.substring_char(start, len)
    }
}

impl CompilationUnit {
    /// imports all elements of the other CompilationUnit into this CompilationUnit
    ///
    /// this will import all global_vars, units, implementations and types. The imported
    /// structs are moved from the other unit into this unit
    /// # Arguments
    /// `other` the other CompilationUnit to import the elements from.
    pub fn import(&mut self, other: CompilationUnit)
        ensures
            final(self).global_vars@ == old(self).global_vars@ + other.global_vars@,
            final(self).units@ == old(self).units@ + other.units@,
            final(self).implementations@ == old(self).implementations@ + other.implementations@,
            final(self).types@ == old(self).types@ + other.types@,
    {
        let mut other = other;
        self.global_vars.append(&mut other.global_vars);
        self.units.append(&mut other.units);
        self.implementations.append(&mut other.implementations);
        self.types.append(&mut other.types);
    }
}

/// Gives every type defined in place in `unit` a name and a declaration of
/// its own, resolves the generic parameters of its POUs and gives each
/// element of its enumerations a value (see `pre_processor::pre_process`).
pub fn pre_process(unit: &mut CompilationUnit, id_provider: &mut IdProvider)
    ensures
        pre_processor::unit_pre_processed(
            *old(unit),
            *final(unit),
            old(id_provider).current(),
            final(id_provider).current(),
        ),
{
    pre_processor::pre_process(unit, id_provider)
}

impl Default for CompilationUnit {
    fn default() -> (r: Self)
        ensures
            r.global_vars@.len() == 0,
            r.units@.len() == 0,
            r.implementations@.len() == 0,
            r.types@.len() == 0,
    {
        CompilationUnit {
            global_vars: Vec::new(),
            units: Vec::new(),
            implementations: Vec::new(),
            types: Vec::new(),
        }
    }
}

/// The text of an optional name.
pub open spec fn name_text(name: Option<String>) -> Option<Seq<char>> {
    match name {
        Some(n) => Some(n@),
        None => None,
    }
}

impl DataType {
    /// The name of the type, where it has one.
    pub open spec fn name_of(self) -> Option<Seq<char>> {
        match self {
            DataType::StructType { name, .. } => name_text(name),
            DataType::EnumType { name, .. } => name_text(name),
            DataType::SubRangeType { name, .. } => name_text(name),
            DataType::ArrayType { name, .. } => name_text(name),
            DataType::PointerType { name, .. } => name_text(name),
            DataType::StringType { name, .. } => name_text(name),
            DataType::VarArgs { .. } => None,
            DataType::GenericType { name, .. } => Some(name@),
        }
    }

    /// The type with its name set to `new_name` (varargs have no name).
    pub open spec fn with_name(self, new_name: String) -> DataType {
        match self {
            DataType::StructType { variables, .. } => DataType::StructType {
                name: Some(new_name),
                variables,
            },
            DataType::EnumType { elements, .. } => DataType::EnumType {
                name: Some(new_name),
                elements,
            },
            DataType::SubRangeType { referenced_type, bounds, .. } => DataType::SubRangeType {
                name: Some(new_name),
                referenced_type,
                bounds,
            },
            DataType::ArrayType { bounds, referenced_type, .. } => DataType::ArrayType {
                name: Some(new_name),
                bounds,
                referenced_type,
            },
            DataType::PointerType { referenced_type, .. } => DataType::PointerType {
                name: Some(new_name),
                referenced_type,
            },
            DataType::StringType { is_wide, size, .. } => DataType::StringType {
                name: Some(new_name),
                is_wide,
                size,
            },
            DataType::VarArgs { referenced_type } => DataType::VarArgs { referenced_type },
            DataType::GenericType { generic_symbol, nature, .. } => DataType::GenericType {
                name: new_name,
                generic_symbol,
                nature,
            },
        }
    }

    pub fn set_name(&mut self, new_name: String)
        ensures
            *final(self) == old(self).with_name(new_name),
    {
        match self {
            DataType::StructType { name, .. } => *name = Some(new_name),
            DataType::EnumType { name, .. } => *name = Some(new_name),
            DataType::SubRangeType { name, .. } => *name = Some(new_name),
            DataType::ArrayType { name, .. } => *name = Some(new_name),
            DataType::PointerType { name, .. } => *name = Some(new_name),
            DataType::StringType { name, .. } => *name = Some(new_name),
            DataType::VarArgs { .. } => {},  //No names on varargs
            DataType::GenericType { name, .. } => *name = new_name,
        }
    }

    pub fn get_name(&self) -> (r: Option<&str>)
        ensures
            match r {
                Some(n) => self.name_of() == Some(n@),
                None => self.name_of() is None,
            },
    {
        match self {
            DataType::StructType { name, .. } => as_str_option(name),
            DataType::EnumType { name, .. } => as_str_option(name),
            DataType::ArrayType { name, .. } => as_str_option(name),
            DataType::PointerType { name, .. } => as_str_option(name),
            DataType::StringType { name, .. } => as_str_option(name),
            DataType::SubRangeType { name, .. } => as_str_option(name),
            DataType::VarArgs { .. } => None,
            DataType::GenericType { name, .. } => Some(name.as_str()),
        }
    }

    /// Whether an array or pointer type refers to its inner type by a
    /// definition in place, which `replace_data_type_with_reference_to`
    /// replaces.
    pub open spec fn has_inner_definition(self) -> bool {
        match self {
            DataType::ArrayType { referenced_type, .. } => *referenced_type is DataTypeDefinition,
            DataType::PointerType { referenced_type, .. } => *referenced_type is DataTypeDefinition,
            _ => false,
        }
    }

    /// The inner type of an array or pointer type.
    pub open spec fn inner_declaration(self) -> DataTypeDeclaration
        recommends
            self is ArrayType || self is PointerType,
    {
        match self {
            DataType::ArrayType { referenced_type, .. } => *referenced_type,
            DataType::PointerType { referenced_type, .. } => *referenced_type,
            _ => arbitrary(),
        }
    }

    /// The array or pointer type with its inner type replaced by `inner`.
    pub open spec fn with_inner_declaration(self, inner: DataTypeDeclaration) -> DataType {
        match self {
            DataType::ArrayType { name, bounds, .. } => DataType::ArrayType {
                name,
                bounds,
                referenced_type: Box::new(inner),
            },
            DataType::PointerType { name, .. } => DataType::PointerType {
                name,
                referenced_type: Box::new(inner),
            },
            _ => self,
        }
    }

    //Attempts to replace the inner type with a reference. Returns the old type if replaceable
    pub fn replace_data_type_with_reference_to(
        &mut self,
        new_type_name: String,
        location: &SourceRange,
    ) -> (r: Option<DataTypeDeclaration>)
        ensures
            old(self).has_inner_definition() ==> {
                &&& r == Some(old(self).inner_declaration())
                &&& *final(self) == old(self).with_inner_declaration(
                    DataTypeDeclaration::DataTypeReference {
                        referenced_type: new_type_name,
                        location: *location,
                    },
                )
            },
            !old(self).has_inner_definition() ==> r is None && *final(self) == *old(self),
    {
        match self {
            DataType::ArrayType { referenced_type, .. } => replace_reference(
                referenced_type,
                new_type_name,
                location,
            ),
            DataType::PointerType { referenced_type, .. } => replace_reference(
                referenced_type,
                new_type_name,
                location,
            ),
            _ => None,
        }
    }
}

/// Borrows the text of an optional name.
fn as_str_option(name: &Option<String>) -> (r: Option<&str>)
    ensures
        match r {
            Some(n) => name_text(*name) == Some(n@),
            None => name is None,
        },
{
    match name {
        Some(n) => Some(n.as_str()),
        None => None,
    }
}

fn replace_reference(
    referenced_type: &mut Box<DataTypeDeclaration>,
    new_type_name: String,
    location: &SourceRange,
) -> (r: Option<DataTypeDeclaration>)
    ensures
        **old(referenced_type) is DataTypeReference ==> r is None && *final(referenced_type)
            == *old(referenced_type),
        **old(referenced_type) is DataTypeDefinition ==> r == Some(**old(referenced_type))
            && **final(referenced_type) == (DataTypeDeclaration::DataTypeReference {
            referenced_type: new_type_name,
            location: *location,
        }),
{
    if let DataTypeDeclaration::DataTypeReference { .. } = **referenced_type {
        return None;
    }
    let new_data_type = DataTypeDeclaration::DataTypeReference {
        referenced_type: new_type_name,
        location: *location,
    };
    let mut old_data_type = Box::new(new_data_type);
    std::mem::swap(referenced_type, &mut old_data_type);
    Some(*old_data_type)
}

impl DataTypeDeclaration {
    /// The name of the declared type: the referenced name, or the name of the
    /// type defined in place.
    pub open spec fn name_of(self) -> Option<Seq<char>> {
        match self {
            DataTypeDeclaration::DataTypeReference { referenced_type, .. } => Some(
                referenced_type@,
            ),
            DataTypeDeclaration::DataTypeDefinition { data_type, .. } => data_type.name_of(),
        }
    }

    pub open spec fn location_of(self) -> SourceRange {
        match self {
            DataTypeDeclaration::DataTypeReference { location, .. } => location,
            DataTypeDeclaration::DataTypeDefinition { location, .. } => location,
        }
    }

    pub fn get_name(&self) -> (r: Option<&str>)
        ensures
            match r {
                Some(n) => self.name_of() == Some(n@),
                None => self.name_of() is None,
            },
    {
        match self {
            DataTypeDeclaration::DataTypeReference { referenced_type, .. } => Some(
                referenced_type.as_str(),
            ),
            DataTypeDeclaration::DataTypeDefinition { data_type, .. } => data_type.get_name(),
        }
    }

    pub fn get_location(&self) -> (r: SourceRange)
        ensures
            r == self.location_of(),
    {
        match self {
            DataTypeDeclaration::DataTypeReference { location, .. } => *location,
            DataTypeDeclaration::DataTypeDefinition { location, .. } => *location,
        }
    }
}

impl Variable {
    /// Replaces the variable's type by a reference to `new_type_name` (at the
    /// location of the old declaration) and returns the old declaration.
    pub fn replace_data_type_with_reference_to(&mut self, new_type_name: String) -> (r:
        DataTypeDeclaration)
        ensures
            r == old(self).data_type,
            final(self).name == old(self).name,
            final(self).initializer == old(self).initializer,
            final(self).location == old(self).location,
            final(self).data_type == (DataTypeDeclaration::DataTypeReference {
                referenced_type: new_type_name,
                location: old(self).data_type.location_of(),
            }),
    {
        let new_data_type = DataTypeDeclaration::DataTypeReference {
            referenced_type: new_type_name,
            location: self.data_type.get_location(),
        };
        let mut old_data_type = new_data_type;
        std::mem::swap(&mut self.data_type, &mut old_data_type);
        old_data_type
    }
}

/// Whether two optional boxed statements are both absent or the same.
pub open spec fn same_option(a: Option<Box<AstStatement>>, b: Option<Box<AstStatement>>) -> bool
    decreases a,
{
    match a {
        Some(x) => match b {
            Some(y) => x.same_as(*y),
            None => false,
        },
        None => b is None,
    }
}

/// Whether two optional statements are both absent or the same.
pub open spec fn same_option_value(a: Option<AstStatement>, b: Option<AstStatement>) -> bool
    decreases a,
{
    match a {
        Some(x) => match b {
            Some(y) => x.same_as(y),
            None => false,
        },
        None => b is None,
    }
}

/// Whether two sequences of statements have the same length and the same
/// statements at each position.
pub open spec fn same_all(a: Seq<AstStatement>, b: Seq<AstStatement>) -> bool
    decreases a,
{
    a.len() == b.len() && (a.len() == 0 || (same_all(a.drop_last(), b.drop_last()) && a.last().same_as(
        b.last(),
    )))
}

/// Whether two sequences of conditional blocks are the same, position by
/// position.
pub open spec fn same_blocks(a: Seq<ConditionalBlock>, b: Seq<ConditionalBlock>) -> bool
    decreases a,
{
    a.len() == b.len() && (a.len() == 0 || (same_blocks(a.drop_last(), b.drop_last())
        && a.last().condition.same_as(*b.last().condition) && same_all(
        a.last().body@,
        b.last().body@,
    )))
}

/// Whether two control statements are the same.
pub open spec fn same_control(a: AstControlStatement, b: AstControlStatement) -> bool
    decreases a,
{
    match a {
        AstControlStatement::IfStatement(x) => match b {
            AstControlStatement::IfStatement(y) => same_blocks(x.blocks@, y.blocks@) && same_all(
                x.else_block@,
                y.else_block@,
            ),
        },
    }
}

impl AstStatement {
    /// Whether `other` is a copy of the statement: the same variant with the
    /// same values, its lists of the same length with the same statements.
    pub open spec fn same_as(self, other: AstStatement) -> bool
        decreases self,
    {
        match self {
            AstStatement::EmptyStatement { location: location_a, id: id_a } => match other {
                AstStatement::EmptyStatement { location: location_b, id: id_b } => location_a == location_b && id_a == id_b,
                _ => false,
            },
            AstStatement::LiteralInteger { value: value_a, location: location_a, id: id_a } => match other {
                AstStatement::LiteralInteger { value: value_b, location: location_b, id: id_b } => value_a == value_b && location_a == location_b && id_a == id_b,
                _ => false,
            },
            AstStatement::LiteralDate { year: year_a, month: month_a, day: day_a, location: location_a, id: id_a } => match other {
                AstStatement::LiteralDate { year: year_b, month: month_b, day: day_b, location: location_b, id: id_b } => year_a == year_b && month_a == month_b && day_a == day_b && location_a == location_b && id_a == id_b,
                _ => false,
            },
            AstStatement::LiteralDateAndTime { year: year_a, month: month_a, day: day_a, hour: hour_a, min: min_a, sec: sec_a, milli: milli_a, location: location_a, id: id_a } => match other {
                AstStatement::LiteralDateAndTime { year: year_b, month: month_b, day: day_b, hour: hour_b, min: min_b, sec: sec_b, milli: milli_b, location: location_b, id: id_b } => year_a == year_b && month_a == month_b && day_a == day_b && hour_a == hour_b && min_a == min_b && sec_a == sec_b && milli_a == milli_b && location_a == location_b && id_a == id_b,
                _ => false,
            },
            AstStatement::LiteralTimeOfDay { hour: hour_a, min: min_a, sec: sec_a, milli: milli_a, location: location_a, id: id_a } => match other {
                AstStatement::LiteralTimeOfDay { hour: hour_b, min: min_b, sec: sec_b, milli: milli_b, location: location_b, id: id_b } => hour_a == hour_b && min_a == min_b && sec_a == sec_b && milli_a == milli_b && location_a == location_b && id_a == id_b,
                _ => false,
            },
            AstStatement::LiteralTime { day: day_a, hour: hour_a, min: min_a, sec: sec_a, milli: milli_a, micro: micro_a, nano: nano_a, negative: negative_a, location: location_a, id: id_a } => match other {
                AstStatement::LiteralTime { day: day_b, hour: hour_b, min: min_b, sec: sec_b, milli: milli_b, micro: micro_b, nano: nano_b, negative: negative_b, location: location_b, id: id_b } => day_a == day_b && hour_a == hour_b && min_a == min_b && sec_a == sec_b && milli_a == milli_b && micro_a == micro_b && nano_a == nano_b && negative_a == negative_b && location_a == location_b && id_a == id_b,
                _ => false,
            },
            AstStatement::LiteralReal { value: value_a, location: location_a, id: id_a } => match other {
                AstStatement::LiteralReal { value: value_b, location: location_b, id: id_b } => value_a == value_b && location_a == location_b && id_a == id_b,
                _ => false,
            },
            AstStatement::LiteralBool { value: value_a, location: location_a, id: id_a } => match other {
                AstStatement::LiteralBool { value: value_b, location: location_b, id: id_b } => value_a == value_b && location_a == location_b && id_a == id_b,
                _ => false,
            },
            AstStatement::LiteralString { value: value_a, is_wide: is_wide_a, location: location_a, id: id_a } => match other {
                AstStatement::LiteralString { value: value_b, is_wide: is_wide_b, location: location_b, id: id_b } => value_a == value_b && is_wide_a == is_wide_b && location_a == location_b && id_a == id_b,
                _ => false,
            },
            AstStatement::LiteralArray { elements: elements_a, location: location_a, id: id_a } => match other {
                AstStatement::LiteralArray { elements: elements_b, location: location_b, id: id_b } => same_option(elements_a, elements_b) && location_a == location_b && id_a == id_b,
                _ => false,
            },
            AstStatement::CastStatement { target: target_a, type_identifier: type_identifier_a, location: location_a, id: id_a } => match other {
                AstStatement::CastStatement { target: target_b, type_identifier: type_identifier_b, location: location_b, id: id_b } => target_a.same_as(*target_b) && type_identifier_a == type_identifier_b && location_a == location_b && id_a == id_b,
                _ => false,
            },
            AstStatement::MultipliedStatement { multiplier: multiplier_a, element: element_a, location: location_a, id: id_a } => match other {
                AstStatement::MultipliedStatement { multiplier: multiplier_b, element: element_b, location: location_b, id: id_b } => multiplier_a == multiplier_b && element_a.same_as(*element_b) && location_a == location_b && id_a == id_b,
                _ => false,
            },
            AstStatement::QualifiedReference { elements: elements_a, id: id_a } => match other {
                AstStatement::QualifiedReference { elements: elements_b, id: id_b } => same_all(elements_a@, elements_b@) && id_a == id_b,
                _ => false,
            },
            AstStatement::Reference { name: name_a, location: location_a, id: id_a } => match other {
                AstStatement::Reference { name: name_b, location: location_b, id: id_b } => name_a == name_b && location_a == location_b && id_a == id_b,
                _ => false,
            },
            AstStatement::ArrayAccess { reference: reference_a, access: access_a, id: id_a } => match other {
                AstStatement::ArrayAccess { reference: reference_b, access: access_b, id: id_b } => reference_a.same_as(*reference_b) && access_a.same_as(*access_b) && id_a == id_b,
                _ => false,
            },
            AstStatement::PointerAccess { reference: reference_a, id: id_a } => match other {
                AstStatement::PointerAccess { reference: reference_b, id: id_b } => reference_a.same_as(*reference_b) && id_a == id_b,
                _ => false,
            },
            AstStatement::DirectAccess { access: access_a, index: index_a, location: location_a, id: id_a } => match other {
                AstStatement::DirectAccess { access: access_b, index: index_b, location: location_b, id: id_b } => access_a == access_b && index_a == index_b && location_a == location_b && id_a == id_b,
                _ => false,
            },
            AstStatement::BinaryExpression { operator: operator_a, left: left_a, right: right_a, id: id_a } => match other {
                AstStatement::BinaryExpression { operator: operator_b, left: left_b, right: right_b, id: id_b } => operator_a == operator_b && left_a.same_as(*left_b) && right_a.same_as(*right_b) && id_a == id_b,
                _ => false,
            },
            AstStatement::UnaryExpression { operator: operator_a, value: value_a, location: location_a, id: id_a } => match other {
                AstStatement::UnaryExpression { operator: operator_b, value: value_b, location: location_b, id: id_b } => operator_a == operator_b && value_a.same_as(*value_b) && location_a == location_b && id_a == id_b,
                _ => false,
            },
            AstStatement::ExpressionList { expressions: expressions_a, id: id_a } => match other {
                AstStatement::ExpressionList { expressions: expressions_b, id: id_b } => same_all(expressions_a@, expressions_b@) && id_a == id_b,
                _ => false,
            },
            AstStatement::RangeStatement { start: start_a, end: end_a, id: id_a } => match other {
                AstStatement::RangeStatement { start: start_b, end: end_b, id: id_b } => start_a.same_as(*start_b) && end_a.same_as(*end_b) && id_a == id_b,
                _ => false,
            },
            AstStatement::Assignment { left: left_a, right: right_a, id: id_a } => match other {
                AstStatement::Assignment { left: left_b, right: right_b, id: id_b } => left_a.same_as(*left_b) && right_a.same_as(*right_b) && id_a == id_b,
                _ => false,
            },
            AstStatement::OutputAssignment { left: left_a, right: right_a, id: id_a } => match other {
                AstStatement::OutputAssignment { left: left_b, right: right_b, id: id_b } => left_a.same_as(*left_b) && right_a.same_as(*right_b) && id_a == id_b,
                _ => false,
            },
            AstStatement::CallStatement { operator: operator_a, parameters: parameters_a, location: location_a, id: id_a } => match other {
                AstStatement::CallStatement { operator: operator_b, parameters: parameters_b, location: location_b, id: id_b } => operator_a.same_as(*operator_b) && same_option_value(*parameters_a, *parameters_b) && location_a == location_b && id_a == id_b,
                _ => false,
            },
            AstStatement::ControlStatement { kind: kind_a, location: location_a, id: id_a } => match other {
                AstStatement::ControlStatement { kind: kind_b, location: location_b, id: id_b } => same_control(kind_a, kind_b) && location_a == location_b && id_a == id_b,
                _ => false,
            },
            AstStatement::IfStatement { blocks: blocks_a, else_block: else_block_a, location: location_a, id: id_a } => match other {
                AstStatement::IfStatement { blocks: blocks_b, else_block: else_block_b, location: location_b, id: id_b } => same_blocks(blocks_a@, blocks_b@) && same_all(else_block_a@, else_block_b@) && location_a == location_b && id_a == id_b,
                _ => false,
            },
            AstStatement::ForLoopStatement { counter: counter_a, start: start_a, end: end_a, by_step: by_step_a, body: body_a, location: location_a, id: id_a } => match other {
                AstStatement::ForLoopStatement { counter: counter_b, start: start_b, end: end_b, by_step: by_step_b, body: body_b, location: location_b, id: id_b } => counter_a.same_as(*counter_b) && start_a.same_as(*start_b) && end_a.same_as(*end_b) && same_option(by_step_a, by_step_b) && same_all(body_a@, body_b@) && location_a == location_b && id_a == id_b,
                _ => false,
            },
            AstStatement::WhileLoopStatement { condition: condition_a, body: body_a, location: location_a, id: id_a } => match other {
                AstStatement::WhileLoopStatement { condition: condition_b, body: body_b, location: location_b, id: id_b } => condition_a.same_as(*condition_b) && same_all(body_a@, body_b@) && location_a == location_b && id_a == id_b,
                _ => false,
            },
            AstStatement::RepeatLoopStatement { condition: condition_a, body: body_a, location: location_a, id: id_a } => match other {
                AstStatement::RepeatLoopStatement { condition: condition_b, body: body_b, location: location_b, id: id_b } => condition_a.same_as(*condition_b) && same_all(body_a@, body_b@) && location_a == location_b && id_a == id_b,
                _ => false,
            },
            AstStatement::CaseStatement { selector: selector_a, case_blocks: case_blocks_a, else_block: else_block_a, location: location_a, id: id_a } => match other {
                AstStatement::CaseStatement { selector: selector_b, case_blocks: case_blocks_b, else_block: else_block_b, location: location_b, id: id_b } => selector_a.same_as(*selector_b) && same_blocks(case_blocks_a@, case_blocks_b@) && same_all(else_block_a@, else_block_b@) && location_a == location_b && id_a == id_b,
                _ => false,
            },
            AstStatement::CaseCondition { condition: condition_a, id: id_a } => match other {
                AstStatement::CaseCondition { condition: condition_b, id: id_b } => condition_a.same_as(*condition_b) && id_a == id_b,
                _ => false,
            },
            AstStatement::ExitStatement { location: location_a, id: id_a } => match other {
                AstStatement::ExitStatement { location: location_b, id: id_b } => location_a == location_b && id_a == id_b,
                _ => false,
            },
            AstStatement::ContinueStatement { location: location_a, id: id_a } => match other {
                AstStatement::ContinueStatement { location: location_b, id: id_b } => location_a == location_b && id_a == id_b,
                _ => false,
            },
            AstStatement::ReturnStatement { location: location_a, id: id_a } => match other {
                AstStatement::ReturnStatement { location: location_b, id: id_b } => location_a == location_b && id_a == id_b,
                _ => false,
            },
            AstStatement::LiteralNull { location: location_a, id: id_a } => match other {
                AstStatement::LiteralNull { location: location_b, id: id_b } => location_a == location_b && id_a == id_b,
                _ => false,
            },
        }
    }
}

/// A copy of an optional statement.
fn clone_statement_option(s: &Option<AstStatement>) -> (r: Option<AstStatement>) {
    match s {
        Some(x) => Some(x.deep_clone()),
        None => None,
    }
}

/// A copy of a declared type.
#[verifier::loop_isolation(false)]
fn clone_data_type(dt: &DataType) -> (r: DataType)
    decreases dt,
{
    match dt {
        DataType::StructType { name, variables } => {
            let mut copies: Vec<Variable> = Vec::new();
            let mut i: usize = 0;
            while i < variables.len()
                invariant
                    i <= variables.len(),
                decreases variables.len() - i,
            {
                copies.push(clone_variable(&variables[i]));
                i = i + 1;
            }
            DataType::StructType { name: name.clone(), variables: copies }
        },
        DataType::EnumType { name, elements } => DataType::EnumType {
            name: name.clone(),
            elements: elements.deep_clone(),
        },
        DataType::SubRangeType { name, referenced_type, bounds } => DataType::SubRangeType {
            name: name.clone(),
            referenced_type: referenced_type.clone(),
            bounds: clone_statement_option(bounds),
        },
        DataType::ArrayType { name, bounds, referenced_type } => DataType::ArrayType {
            name: name.clone(),
            bounds: bounds.deep_clone(),
            referenced_type: Box::new(clone_declaration(referenced_type)),
        },
        DataType::PointerType { name, referenced_type } => DataType::PointerType {
            name: name.clone(),
            referenced_type: Box::new(clone_declaration(referenced_type)),
        },
        DataType::StringType { name, is_wide, size } => DataType::StringType {
            name: name.clone(),
            is_wide: *is_wide,
            size: clone_statement_option(size),
        },
        DataType::VarArgs { referenced_type } => DataType::VarArgs {
            referenced_type: match referenced_type {
                Some(d) => Some(Box::new(clone_declaration(d))),
                None => None,
            },
        },
        DataType::GenericType { name, generic_symbol, nature } => DataType::GenericType {
            name: name.clone(),
            generic_symbol: generic_symbol.clone(),
            nature: *nature,
        },
    }
}

/// A copy of a type declaration.
fn clone_declaration(d: &DataTypeDeclaration) -> (r: DataTypeDeclaration)
    decreases d,
{
    match d {
        DataTypeDeclaration::DataTypeReference { referenced_type, location } => {
            DataTypeDeclaration::DataTypeReference {
                referenced_type: referenced_type.clone(),
                location: *location,
            }
        },
        DataTypeDeclaration::DataTypeDefinition { data_type, location, scope } => {
            DataTypeDeclaration::DataTypeDefinition {
                data_type: clone_data_type(data_type),
                location: *location,
                scope: scope.clone(),
            }
        },
    }
}

/// A copy of a variable.
fn clone_variable(v: &Variable) -> (r: Variable)
    decreases v,
{
    Variable {
        name: v.name.clone(),
        data_type: clone_declaration(&v.data_type),
        initializer: clone_statement_option(&v.initializer),
        location: v.location,
    }
}

impl Clone for DataType {
    fn clone(&self) -> (r: Self) {
        clone_data_type(self)
    }
}

impl Clone for DataTypeDeclaration {
    fn clone(&self) -> (r: Self) {
        clone_declaration(self)
    }
}

impl Clone for Variable {
    fn clone(&self) -> (r: Self) {
        clone_variable(self)
    }
}

impl Clone for AstStatement {
    fn clone(&self) -> (r: Self)
        ensures
            r.same_as(*self),
    {
        self.deep_clone()
    }
}

impl AstStatement {
    /// A copy of the statement.
    #[verifier::loop_isolation(false)]
    pub fn deep_clone(&self) -> (r: AstStatement)
        ensures
            r.same_as(*self),
        decreases self,
    {
        match self {
            AstStatement::EmptyStatement { location, id } => {
                
                let r = AstStatement::EmptyStatement { location: *location, id: *id };
                assert(r.same_as(*self));
                r
            },
            AstStatement::LiteralInteger { value, location, id } => {
                
                let r = AstStatement::LiteralInteger { value: *value, location: *location, id: *id };
                assert(r.same_as(*self));
                r
            },
            AstStatement::LiteralDate { year, month, day, location, id } => {
                
                let r = AstStatement::LiteralDate { year: *year, month: *month, day: *day, location: *location, id: *id };
                assert(r.same_as(*self));
                r
            },
            AstStatement::LiteralDateAndTime { year, month, day, hour, min, sec, milli, location, id } => {
                
                let r = AstStatement::LiteralDateAndTime { year: *year, month: *month, day: *day, hour: *hour, min: *min, sec: *sec, milli: *milli, location: *location, id: *id };
                assert(r.same_as(*self));
                r
            },
            AstStatement::LiteralTimeOfDay { hour, min, sec, milli, location, id } => {
                
                let r = AstStatement::LiteralTimeOfDay { hour: *hour, min: *min, sec: *sec, milli: *milli, location: *location, id: *id };
                assert(r.same_as(*self));
                r
            },
            AstStatement::LiteralTime { day, hour, min, sec, milli, micro, nano, negative, location, id } => {
                
                let r = AstStatement::LiteralTime { day: *day, hour: *hour, min: *min, sec: *sec, milli: *milli, micro: *micro, nano: *nano, negative: *negative, location: *location, id: *id };
                assert(r.same_as(*self));
                r
            },
            AstStatement::LiteralReal { value, location, id } => {
                
                let r = AstStatement::LiteralReal { value: value.clone(), location: *location, id: *id };
                assert(r.same_as(*self));
                r
            },
            AstStatement::LiteralBool { value, location, id } => {
                
                let r = AstStatement::LiteralBool { value: *value, location: *location, id: *id };
                assert(r.same_as(*self));
                r
            },
            AstStatement::LiteralString { value, is_wide, location, id } => {
                
                let r = AstStatement::LiteralString { value: value.clone(), is_wide: *is_wide, location: *location, id: *id };
                assert(r.same_as(*self));
                r
            },
            AstStatement::LiteralArray { elements, location, id } => {
                let elements_copy = match elements {
                    Some(e) => Some(Box::new(e.deep_clone())),
                    None => None,
                };
                assert(same_option(elements_copy, *elements));
                let r = AstStatement::LiteralArray { elements: elements_copy, location: *location, id: *id };
                assert(r.same_as(*self));
                r
            },
            AstStatement::CastStatement { target, type_identifier, location, id } => {
                
                let r = AstStatement::CastStatement { target: Box::new(target.deep_clone()), type_identifier: type_identifier.clone(), location: *location, id: *id };
                assert(r.same_as(*self));
                r
            },
            AstStatement::MultipliedStatement { multiplier, element, location, id } => {
                
                let r = AstStatement::MultipliedStatement { multiplier: *multiplier, element: Box::new(element.deep_clone()), location: *location, id: *id };
                assert(r.same_as(*self));
                r
            },
            AstStatement::QualifiedReference { elements, id } => {
                let mut elements_copy: Vec<AstStatement> = Vec::new();
                let mut i1: usize = 0;
                while i1 < elements.len()
                    invariant
                        i1 <= elements.len(),
                        same_all(elements_copy@, elements@.subrange(0, i1 as int)),
                    decreases elements.len() - i1,
                {
                    let ghost prev = elements_copy@;
                    elements_copy.push(elements[i1].deep_clone());
                    assert(elements_copy@.drop_last() =~= prev);
                    assert(elements@.subrange(0, i1 + 1).drop_last() =~= elements@.subrange(0, i1 as int));
                    i1 = i1 + 1;
                }
                assert(elements@.subrange(0, elements@.len() as int) =~= elements@);
                let r = AstStatement::QualifiedReference { elements: elements_copy, id: *id };
                assert(r.same_as(*self));
                r
            },
            AstStatement::Reference { name, location, id } => {
                
                let r = AstStatement::Reference { name: name.clone(), location: *location, id: *id };
                assert(r.same_as(*self));
                r
            },
            AstStatement::ArrayAccess { reference, access, id } => {
                
                let r = AstStatement::ArrayAccess { reference: Box::new(reference.deep_clone()), access: Box::new(access.deep_clone()), id: *id };
                assert(r.same_as(*self));
                r
            },
            AstStatement::PointerAccess { reference, id } => {
                
                let r = AstStatement::PointerAccess { reference: Box::new(reference.deep_clone()), id: *id };
                assert(r.same_as(*self));
                r
            },
            AstStatement::DirectAccess { access, index, location, id } => {
                
                let r = AstStatement::DirectAccess { access: *access, index: *index, location: *location, id: *id };
                assert(r.same_as(*self));
                r
            },
            AstStatement::BinaryExpression { operator, left, right, id } => {
                
                let r = AstStatement::BinaryExpression { operator: *operator, left: Box::new(left.deep_clone()), right: Box::new(right.deep_clone()), id: *id };
                assert(r.same_as(*self));
                r
            },
            AstStatement::UnaryExpression { operator, value, location, id } => {
                
                let r = AstStatement::UnaryExpression { operator: *operator, value: Box::new(value.deep_clone()), location: *location, id: *id };
                assert(r.same_as(*self));
                r
            },
            AstStatement::ExpressionList { expressions, id } => {
                let mut expressions_copy: Vec<AstStatement> = Vec::new();
                let mut i2: usize = 0;
                while i2 < expressions.len()
                    invariant
                        i2 <= expressions.len(),
                        same_all(expressions_copy@, expressions@.subrange(0, i2 as int)),
                    decreases expressions.len() - i2,
                {
                    let ghost prev = expressions_copy@;
                    expressions_copy.push(expressions[i2].deep_clone());
                    assert(expressions_copy@.drop_last() =~= prev);
                    assert(expressions@.subrange(0, i2 + 1).drop_last() =~= expressions@.subrange(0, i2 as int));
                    i2 = i2 + 1;
                }
                assert(expressions@.subrange(0, expressions@.len() as int) =~= expressions@);
                let r = AstStatement::ExpressionList { expressions: expressions_copy, id: *id };
                assert(r.same_as(*self));
                r
            },
            AstStatement::RangeStatement { start, end, id } => {
                
                let r = AstStatement::RangeStatement { start: Box::new(start.deep_clone()), end: Box::new(end.deep_clone()), id: *id };
                assert(r.same_as(*self));
                r
            },
            AstStatement::Assignment { left, right, id } => {
                
                let r = AstStatement::Assignment { left: Box::new(left.deep_clone()), right: Box::new(right.deep_clone()), id: *id };
                assert(r.same_as(*self));
                r
            },
            AstStatement::OutputAssignment { left, right, id } => {
                
                let r = AstStatement::OutputAssignment { left: Box::new(left.deep_clone()), right: Box::new(right.deep_clone()), id: *id };
                assert(r.same_as(*self));
                r
            },
            AstStatement::CallStatement { operator, parameters, location, id } => {
                let parameters_copy = match &**parameters {
                    Some(e) => Some(e.deep_clone()),
                    None => None,
                };
                assert(same_option_value(parameters_copy, **parameters));
                let r = AstStatement::CallStatement { operator: Box::new(operator.deep_clone()), parameters: Box::new(parameters_copy), location: *location, id: *id };
                assert(r.same_as(*self));
                r
            },
            AstStatement::ControlStatement { kind, location, id } => {
                let AstControlStatement::IfStatement(if_statement) = kind;
                let mut blocks_copy: Vec<ConditionalBlock> = Vec::new();
                let mut i3: usize = 0;
                while i3 < if_statement.blocks.len()
                    invariant
                        i3 <= if_statement.blocks.len(),
                        same_blocks(blocks_copy@, if_statement.blocks@.subrange(0, i3 as int)),
                    decreases if_statement.blocks.len() - i3,
                {
                    let condition = Box::new(if_statement.blocks[i3].condition.deep_clone());
                    let body_src_i3 = &if_statement.blocks[i3].body;
                    let mut body_i3: Vec<AstStatement> = Vec::new();
                    let mut i4: usize = 0;
                    while i4 < body_src_i3.len()
                        invariant
                            i4 <= body_src_i3.len(),
                            same_all(body_i3@, body_src_i3@.subrange(0, i4 as int)),
                        decreases body_src_i3.len() - i4,
                    {
                        let ghost prev = body_i3@;
                        body_i3.push(body_src_i3[i4].deep_clone());
                        assert(body_i3@.drop_last() =~= prev);
                        assert(body_src_i3@.subrange(0, i4 + 1).drop_last() =~= body_src_i3@.subrange(0, i4 as int));
                        i4 = i4 + 1;
                    }
                    assert(body_src_i3@.subrange(0, body_src_i3@.len() as int) =~= body_src_i3@);
                    let ghost prev = blocks_copy@;
                    blocks_copy.push(ConditionalBlock { condition, body: body_i3 });
                    assert(blocks_copy@.drop_last() =~= prev);
                    assert(if_statement.blocks@.subrange(0, i3 + 1).drop_last() =~= if_statement.blocks@.subrange(0, i3 as int));
                    i3 = i3 + 1;
                }
                assert(if_statement.blocks@.subrange(0, if_statement.blocks@.len() as int) =~= if_statement.blocks@);
                let mut else_copy: Vec<AstStatement> = Vec::new();
                let mut i5: usize = 0;
                while i5 < if_statement.else_block.len()
                    invariant
                        i5 <= if_statement.else_block.len(),
                        same_all(else_copy@, if_statement.else_block@.subrange(0, i5 as int)),
                    decreases if_statement.else_block.len() - i5,
                {
                    let ghost prev = else_copy@;
                    else_copy.push(if_statement.else_block[i5].deep_clone());
                    assert(else_copy@.drop_last() =~= prev);
                    assert(if_statement.else_block@.subrange(0, i5 + 1).drop_last() =~= if_statement.else_block@.subrange(0, i5 as int));
                    i5 = i5 + 1;
                }
                assert(if_statement.else_block@.subrange(0, if_statement.else_block@.len() as int) =~= if_statement.else_block@);
                let kind_copy = AstControlStatement::IfStatement(crate::ast::control_statements::IfStatement { blocks: blocks_copy, else_block: else_copy });
                assert(same_control(kind_copy, *kind));
                let r = AstStatement::ControlStatement { kind: kind_copy, location: *location, id: *id };
                assert(r.same_as(*self));
                r
            },
            AstStatement::IfStatement { blocks, else_block, location, id } => {
                let mut blocks_copy: Vec<ConditionalBlock> = Vec::new();
                let mut i6: usize = 0;
                while i6 < blocks.len()
                    invariant
                        i6 <= blocks.len(),
                        same_blocks(blocks_copy@, blocks@.subrange(0, i6 as int)),
                    decreases blocks.len() - i6,
                {
                    let condition = Box::new(blocks[i6].condition.deep_clone());
                    let body_src_i6 = &blocks[i6].body;
                    let mut body_i6: Vec<AstStatement> = Vec::new();
                    let mut i7: usize = 0;
                    while i7 < body_src_i6.len()
                        invariant
                            i7 <= body_src_i6.len(),
                            same_all(body_i6@, body_src_i6@.subrange(0, i7 as int)),
                        decreases body_src_i6.len() - i7,
                    {
                        let ghost prev = body_i6@;
                        body_i6.push(body_src_i6[i7].deep_clone());
                        assert(body_i6@.drop_last() =~= prev);
                        assert(body_src_i6@.subrange(0, i7 + 1).drop_last() =~= body_src_i6@.subrange(0, i7 as int));
                        i7 = i7 + 1;
                    }
                    assert(body_src_i6@.subrange(0, body_src_i6@.len() as int) =~= body_src_i6@);
                    let ghost prev = blocks_copy@;
                    blocks_copy.push(ConditionalBlock { condition, body: body_i6 });
                    assert(blocks_copy@.drop_last() =~= prev);
                    assert(blocks@.subrange(0, i6 + 1).drop_last() =~= blocks@.subrange(0, i6 as int));
                    i6 = i6 + 1;
                }
                assert(blocks@.subrange(0, blocks@.len() as int) =~= blocks@);
                let mut else_block_copy: Vec<AstStatement> = Vec::new();
                let mut i8: usize = 0;
                while i8 < else_block.len()
                    invariant
                        i8 <= else_block.len(),
                        same_all(else_block_copy@, else_block@.subrange(0, i8 as int)),
                    decreases else_block.len() - i8,
                {
                    let ghost prev = else_block_copy@;
                    else_block_copy.push(else_block[i8].deep_clone());
                    assert(else_block_copy@.drop_last() =~= prev);
                    assert(else_block@.subrange(0, i8 + 1).drop_last() =~= else_block@.subrange(0, i8 as int));
                    i8 = i8 + 1;
                }
                assert(else_block@.subrange(0, else_block@.len() as int) =~= else_block@);
                let r = AstStatement::IfStatement { blocks: blocks_copy, else_block: else_block_copy, location: *location, id: *id };
                assert(r.same_as(*self));
                r
            },
            AstStatement::ForLoopStatement { counter, start, end, by_step, body, location, id } => {
                let by_step_copy = match by_step {
                    Some(e) => Some(Box::new(e.deep_clone())),
                    None => None,
                };
                let mut body_copy: Vec<AstStatement> = Vec::new();
                let mut i9: usize = 0;
                while i9 < body.len()
                    invariant
                        i9 <= body.len(),
                        same_all(body_copy@, body@.subrange(0, i9 as int)),
                    decreases body.len() - i9,
                {
                    let ghost prev = body_copy@;
                    body_copy.push(body[i9].deep_clone());
                    assert(body_copy@.drop_last() =~= prev);
                    assert(body@.subrange(0, i9 + 1).drop_last() =~= body@.subrange(0, i9 as int));
                    i9 = i9 + 1;
                }
                assert(body@.subrange(0, body@.len() as int) =~= body@);
                assert(same_option(by_step_copy, *by_step));
                let r = AstStatement::ForLoopStatement { counter: Box::new(counter.deep_clone()), start: Box::new(start.deep_clone()), end: Box::new(end.deep_clone()), by_step: by_step_copy, body: body_copy, location: *location, id: *id };
                assert(r.same_as(*self));
                r
            },
            AstStatement::WhileLoopStatement { condition, body, location, id } => {
                let mut body_copy: Vec<AstStatement> = Vec::new();
                let mut i10: usize = 0;
                while i10 < body.len()
                    invariant
                        i10 <= body.len(),
                        same_all(body_copy@, body@.subrange(0, i10 as int)),
                    decreases body.len() - i10,
                {
                    let ghost prev = body_copy@;
                    body_copy.push(body[i10].deep_clone());
                    assert(body_copy@.drop_last() =~= prev);
                    assert(body@.subrange(0, i10 + 1).drop_last() =~= body@.subrange(0, i10 as int));
                    i10 = i10 + 1;
                }
                assert(body@.subrange(0, body@.len() as int) =~= body@);
                let r = AstStatement::WhileLoopStatement { condition: Box::new(condition.deep_clone()), body: body_copy, location: *location, id: *id };
                assert(r.same_as(*self));
                r
            },
            AstStatement::RepeatLoopStatement { condition, body, location, id } => {
                let mut body_copy: Vec<AstStatement> = Vec::new();
                let mut i11: usize = 0;
                while i11 < body.len()
                    invariant
                        i11 <= body.len(),
                        same_all(body_copy@, body@.subrange(0, i11 as int)),
                    decreases body.len() - i11,
                {
                    let ghost prev = body_copy@;
                    body_copy.push(body[i11].deep_clone());
                    assert(body_copy@.drop_last() =~= prev);
                    assert(body@.subrange(0, i11 + 1).drop_last() =~= body@.subrange(0, i11 as int));
                    i11 = i11 + 1;
                }
                assert(body@.subrange(0, body@.len() as int) =~= body@);
                let r = AstStatement::RepeatLoopStatement { condition: Box::new(condition.deep_clone()), body: body_copy, location: *location, id: *id };
                assert(r.same_as(*self));
                r
            },
            AstStatement::CaseStatement { selector, case_blocks, else_block, location, id } => {
                let mut case_blocks_copy: Vec<ConditionalBlock> = Vec::new();
                let mut i12: usize = 0;
                while i12 < case_blocks.len()
                    invariant
                        i12 <= case_blocks.len(),
                        same_blocks(case_blocks_copy@, case_blocks@.subrange(0, i12 as int)),
                    decreases case_blocks.len() - i12,
                {
                    let condition = Box::new(case_blocks[i12].condition.deep_clone());
                    let body_src_i12 = &case_blocks[i12].body;
                    let mut body_i12: Vec<AstStatement> = Vec::new();
                    let mut i13: usize = 0;
                    while i13 < body_src_i12.len()
                        invariant
                            i13 <= body_src_i12.len(),
                            same_all(body_i12@, body_src_i12@.subrange(0, i13 as int)),
                        decreases body_src_i12.len() - i13,
                    {
                        let ghost prev = body_i12@;
                        body_i12.push(body_src_i12[i13].deep_clone());
                        assert(body_i12@.drop_last() =~= prev);
                        assert(body_src_i12@.subrange(0, i13 + 1).drop_last() =~= body_src_i12@.subrange(0, i13 as int));
                        i13 = i13 + 1;
                    }
                    assert(body_src_i12@.subrange(0, body_src_i12@.len() as int) =~= body_src_i12@);
                    let ghost prev = case_blocks_copy@;
                    case_blocks_copy.push(ConditionalBlock { condition, body: body_i12 });
                    assert(case_blocks_copy@.drop_last() =~= prev);
                    assert(case_blocks@.subrange(0, i12 + 1).drop_last() =~= case_blocks@.subrange(0, i12 as int));
                    i12 = i12 + 1;
                }
                assert(case_blocks@.subrange(0, case_blocks@.len() as int) =~= case_blocks@);
                let mut else_block_copy: Vec<AstStatement> = Vec::new();
                let mut i14: usize = 0;
                while i14 < else_block.len()
                    invariant
                        i14 <= else_block.len(),
                        same_all(else_block_copy@, else_block@.subrange(0, i14 as int)),
                    decreases else_block.len() - i14,
                {
                    let ghost prev = else_block_copy@;
                    else_block_copy.push(else_block[i14].deep_clone());
                    assert(else_block_copy@.drop_last() =~= prev);
                    assert(else_block@.subrange(0, i14 + 1).drop_last() =~= else_block@.subrange(0, i14 as int));
                    i14 = i14 + 1;
                }
                assert(else_block@.subrange(0, else_block@.len() as int) =~= else_block@);
                let r = AstStatement::CaseStatement { selector: Box::new(selector.deep_clone()), case_blocks: case_blocks_copy, else_block: else_block_copy, location: *location, id: *id };
                assert(r.same_as(*self));
                r
            },
            AstStatement::CaseCondition { condition, id } => {
                
                let r = AstStatement::CaseCondition { condition: Box::new(condition.deep_clone()), id: *id };
                assert(r.same_as(*self));
                r
            },
            AstStatement::ExitStatement { location, id } => {
                
                let r = AstStatement::ExitStatement { location: *location, id: *id };
                assert(r.same_as(*self));
                r
            },
            AstStatement::ContinueStatement { location, id } => {
                
                let r = AstStatement::ContinueStatement { location: *location, id: *id };
                assert(r.same_as(*self));
                r
            },
            AstStatement::ReturnStatement { location, id } => {
                
                let r = AstStatement::ReturnStatement { location: *location, id: *id };
                assert(r.same_as(*self));
                r
            },
            AstStatement::LiteralNull { location, id } => {
                
                let r = AstStatement::LiteralNull { location: *location, id: *id };
                assert(r.same_as(*self));
                r
            },
        }
    }
}

/// Hands out the ids of new syntax-tree nodes, counting up from a start value
/// and wrapping around at the end of the range of `usize`.
#[derive(Debug)]
pub struct IdProvider {
    current_id: usize,
}

/// The id that comes `offset` ids after `start`.
#[verifier::opaque]
pub open spec fn id_after(start: usize, offset: int) -> usize {
    ((start as int + offset) % (usize::MAX as int + 1)) as usize
}

impl IdProvider {
    /// The id that `next_id` hands out next.
    pub closed spec fn current(self) -> usize {
        self.current_id
    }

    /// A provider whose first id is `start`.
    pub fn starting_at(start: usize) -> (r: IdProvider)
        ensures
            r.current() == start,
    {
        IdProvider { current_id: start }
    }

    /// The id that the provider hands out next.
    pub fn peek(&self) -> (r: usize)
        ensures
            r == self.current(),
    {
        self.current_id
    }

    /// Hands out the next id.
    pub fn next_id(&mut self) -> (r: AstId)
        ensures
            r == old(self).current(),
            final(self).current() == id_after(old(self).current(), 1),
    {
        let id = self.current_id;
        proof {
            reveal(id_after);
            let m = usize::MAX as int + 1;
            if (id as int) < usize::MAX as int {
                vstd::arithmetic::div_mod::lemma_small_mod((id as int + 1) as nat, m as nat);
            } else {
                vstd::arithmetic::div_mod::lemma_mod_self_0(m);
            }
        }
        self.current_id = if self.current_id == usize::MAX {
            0
        } else {
            self.current_id + 1
        };
        id
    }
}

impl SourceRange {
    /// The span `0..0` of a node without a place in the source.
    pub closed spec fn undefined_range() -> SourceRange {
        SourceRange { start: 0, end: 0 }
    }
}


} // verus!
