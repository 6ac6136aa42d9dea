//! The text that `{:?}` writes for declarations: POUs, variable blocks,
//! variables, type declarations and declared types.
use vstd::prelude::*;

use crate::ast::debug_text::{
    bool_string, bool_text, debug_of, field, field_text, has_duration, list, list_text, option,
    option_text, record, record1, record2, record_of1, record_of2, record_text, str_debug,
    str_debug_text,
};
use crate::ast::{
    AstStatement, DataType, DataTypeDeclaration, Pou, PouType, UserTypeDeclaration, Variable,
    VariableBlock, VariableBlockType,
};

verus! {

/// The text of an optional name: `Some("name")` or `None`.
pub open spec fn name_option_text(n: Option<String>) -> Seq<char> {
    option_text(
        match n {
            Some(x) => Some(str_debug_text(x@)),
            None => None,
        },
    )
}

/// Whether an optional statement holds a duration literal.
pub open spec fn option_duration(o: Option<AstStatement>) -> bool {
    match o {
        Some(s) => has_duration(s),
        None => false,
    }
}

/// The text of an optional statement: `Some(..)` or `None`.
pub open spec fn statement_option_text(o: Option<AstStatement>) -> Seq<char> {
    option_text(
        match o {
            Some(s) => Some(debug_of(s)),
            None => None,
        },
    )
}

/// Whether a declared type holds a duration literal in one of its statements.
pub open spec fn type_duration(dt: DataType) -> bool
    decreases dt,
{
    match dt {
        DataType::StructType { variables, .. } => variables_duration(variables@),
        DataType::EnumType { elements, .. } => has_duration(elements),
        DataType::SubRangeType { bounds, .. } => option_duration(bounds),
        DataType::ArrayType { bounds, referenced_type, .. } => has_duration(bounds)
            || declaration_duration(*referenced_type),
        DataType::PointerType { referenced_type, .. } => declaration_duration(*referenced_type),
        DataType::StringType { size, .. } => option_duration(size),
        DataType::VarArgs { referenced_type } => match referenced_type {
            Some(d) => declaration_duration(*d),
            None => false,
        },
        DataType::GenericType { .. } => false,
    }
}

/// Whether a type declaration holds a duration literal.
pub open spec fn declaration_duration(d: DataTypeDeclaration) -> bool
    decreases d,
{
    match d {
        DataTypeDeclaration::DataTypeReference { .. } => false,
        DataTypeDeclaration::DataTypeDefinition { data_type, .. } => type_duration(data_type),
    }
}

/// Whether one of the variables holds a duration literal.
pub open spec fn variables_duration(vs: Seq<Variable>) -> bool
    decreases vs,
{
    if vs.len() == 0 {
        false
    } else {
        variables_duration(vs.drop_last()) || declaration_duration(vs.last().data_type)
            || option_duration(vs.last().initializer)
    }
}

/// The text of a declared type as `{:?}` writes it: its kind, name and
/// parts (a generic type shows its name and symbol).
pub open spec fn type_debug(dt: DataType) -> Seq<char>
    decreases dt,
{
    match dt {
        DataType::StructType { name, variables } => record2(
            "StructType"@,
            "name"@,
            name_option_text(name),
            "variables"@,
            list_text(variables_debug(variables@)),
        ),
        DataType::EnumType { name, elements } => record2(
            "EnumType"@,
            "name"@,
            name_option_text(name),
            "elements"@,
            debug_of(elements),
        ),
        DataType::SubRangeType { name, referenced_type, bounds } => record_text(
            "SubRangeType"@,
            seq![
                field_text("name"@, name_option_text(name)),
                field_text("referenced_type"@, str_debug_text(referenced_type@)),
                field_text("bounds"@, statement_option_text(bounds)),
            ],
        ),
        DataType::ArrayType { name, bounds, referenced_type } => {
            let inner = declaration_debug(*referenced_type);
            record_text(
                "ArrayType"@,
                seq![
                    field_text("name"@, name_option_text(name)),
                    field_text("bounds"@, debug_of(bounds)),
                    field_text("referenced_type"@, inner),
                ],
            )
        },
        DataType::PointerType { name, referenced_type } => record2(
            "PointerType"@,
            "name"@,
            name_option_text(name),
            "referenced_type"@,
            declaration_debug(*referenced_type),
        ),
        DataType::StringType { name, is_wide, size } => record_text(
            "StringType"@,
            seq![
                field_text("name"@, name_option_text(name)),
                field_text("is_wide"@, bool_text(is_wide)),
                field_text("size"@, statement_option_text(size)),
            ],
        ),
        DataType::VarArgs { referenced_type } => {
            let inner = match referenced_type {
                Some(d) => Some(declaration_debug(*d)),
                None => None,
            };
            record1("VarArgs"@, "referenced_type"@, option_text(inner))
        },
        DataType::GenericType { name, generic_symbol, .. } => record2(
            "GenericType"@,
            "name"@,
            str_debug_text(name@),
            "generic_symbol"@,
            str_debug_text(generic_symbol@),
        ),
    }
}

/// The text of a type declaration as `{:?}` writes it.
pub open spec fn declaration_debug(d: DataTypeDeclaration) -> Seq<char>
    decreases d,
{
    match d {
        DataTypeDeclaration::DataTypeReference { referenced_type, .. } => record1(
            "DataTypeReference"@,
            "referenced_type"@,
            str_debug_text(referenced_type@),
        ),
        DataTypeDeclaration::DataTypeDefinition { data_type, .. } => record1(
            "DataTypeDefinition"@,
            "data_type"@,
            type_debug(data_type),
        ),
    }
}

/// The text of a variable as `{:?}` writes it: `Variable { name, data_type }`,
/// with the initializer after them where there is one.
pub open spec fn variable_debug(v: Variable) -> Seq<char>
    decreases v,
{
    let d = declaration_debug(v.data_type);
    match v.initializer {
        Some(i) => record_text(
            "Variable"@,
            seq![
                field_text("name"@, str_debug_text(v.name@)),
                field_text("data_type"@, d),
                field_text("initializer"@, statement_option_text(v.initializer)),
            ],
        ),
        None => record2("Variable"@, "name"@, str_debug_text(v.name@), "data_type"@, d),
    }
}

/// Whether a variable holds a duration literal.
pub open spec fn variable_duration(v: Variable) -> bool {
    declaration_duration(v.data_type) || option_duration(v.initializer)
}

/// The texts of the variables, one for each.
pub open spec fn variables_debug(vs: Seq<Variable>) -> Seq<Seq<char>>
    decreases vs,
{
    if vs.len() == 0 {
        seq![]
    } else {
        variables_debug(vs.drop_last()).push(variable_debug(vs.last()))
    }
}

/// The text of an optional name.
fn name_option_string(n: &Option<String>) -> (r: String)
    ensures
        r@ == name_option_text(*n),
{
    match n {
        Some(x) => option(Some(str_debug(x.as_str()))),
        None => option(None),
    }
}

/// The text of an optional statement; `None` where it holds a duration
/// literal.
fn statement_option_string(o: &Option<AstStatement>) -> (r: Option<String>)
    ensures
        match r {
            Some(t) => !option_duration(*o) && t@ == statement_option_text(*o),
            None => option_duration(*o),
        },
{
    match o {
        Some(x) => match x.debug_text() {
            Some(t) => Some(option(Some(t))),
            None => None,
        },
        None => Some(option(None)),
    }
}

/// A prefix of variables with a duration literal makes the whole hold one.
proof fn lemma_variables_duration_prefix(vs: Seq<Variable>, k: int)
    requires
        0 <= k <= vs.len(),
        variables_duration(vs.subrange(0, k)),
    ensures
        variables_duration(vs),
    decreases vs.len() - k,
{
    if k < vs.len() {
        assert(vs.subrange(0, k + 1).drop_last() =~= vs.subrange(0, k));
        lemma_variables_duration_prefix(vs, k + 1);
    } else {
        assert(vs.subrange(0, k) =~= vs);
    }
}

/// The texts of the variables as a list; `None` where one of them holds a
/// duration literal.
fn variables_string(vs: &Vec<Variable>) -> (r: Option<String>)
    ensures
        match r {
            Some(t) => !variables_duration(vs@) && t@ == list_text(variables_debug(vs@)),
            None => variables_duration(vs@),
        },
    decreases vs,
{
    let mut texts: Vec<String> = Vec::new();
    let mut i: usize = 0;
    while i < vs.len()
        invariant
            i <= vs.len(),
            texts@.len() == i,
            texts@.map_values(|p: String| p@) == variables_debug(vs@.subrange(0, i as int)),
            !variables_duration(vs@.subrange(0, i as int)),
        decreases vs.len() - i,
    {
        assert(vs@.subrange(0, i + 1).drop_last() =~= vs@.subrange(0, i as int));
        let text = match vs[i].debug_text() {
            Some(t) => t,
            None => {
                proof {
                    lemma_variables_duration_prefix(vs@, i + 1);
                }
                return None;
            },
        };
        let ghost before = texts@;
        texts.push(text);
        i = i + 1;
        assert(texts@.map_values(|p: String| p@) =~= before.map_values(|p: String| p@).push(
            texts@[i - 1]@,
        ));
    }
    assert(vs@.subrange(0, vs.len() as int) =~= vs@);
    Some(list(&texts))
}

impl Variable {
    /// The text of the variable as `{:?}` writes it (see `variable_debug`);
    /// `None` where it holds a duration literal.
    pub fn debug_text(&self) -> (r: Option<String>)
        ensures
            match r {
                Some(t) => !variable_duration(*self) && t@ == variable_debug(*self),
                None => variable_duration(*self),
            },
        decreases self,
    {
        let d = match self.data_type.debug_text() {
            Some(t) => t,
            None => return None,
        };
        let name = str_debug(self.name.as_str());
        match &self.initializer {
            Some(_) => {
                let i = match statement_option_string(&self.initializer) {
                    Some(t) => t,
                    None => return None,
                };
                let ghost (nt, dt, it) = (name@, d@, i@);
                let fields = vec![field("name", name), field("data_type", d), field("initializer", i)];
                assert(fields@.map_values(|p: String| p@) =~= seq![
                    field_text("name"@, nt),
                    field_text("data_type"@, dt),
                    field_text("initializer"@, it),
                ]);
                Some(record("Variable", &fields))
            },
            None => Some(record_of2("Variable", "name", name, "data_type", d)),
        }
    }
}

impl DataTypeDeclaration {
    /// The text of the declaration as `{:?}` writes it (see
    /// `declaration_debug`); `None` where it holds a duration literal.
    pub fn debug_text(&self) -> (r: Option<String>)
        ensures
            match r {
                Some(t) => !declaration_duration(*self) && t@ == declaration_debug(*self),
                None => declaration_duration(*self),
            },
        decreases self,
    {
        match self {
            DataTypeDeclaration::DataTypeReference { referenced_type, .. } => Some(
                record_of1("DataTypeReference", "referenced_type", str_debug(referenced_type.as_str())),
            ),
            DataTypeDeclaration::DataTypeDefinition { data_type, .. } => match data_type.debug_text() {
                Some(t) => Some(record_of1("DataTypeDefinition", "data_type", t)),
                None => None,
            },
        }
    }
}

impl DataType {
    /// The text of the type as `{:?}` writes it (see `type_debug`); `None`
    /// where it holds a duration literal.
    pub fn debug_text(&self) -> (r: Option<String>)
        ensures
            match r {
                Some(t) => !type_duration(*self) && t@ == type_debug(*self),
                None => type_duration(*self),
            },
        decreases self,
    {
        match self {
            DataType::StructType { name, variables } => match variables_string(variables) {
                Some(t) => Some(record_of2("StructType", "name", name_option_string(name), "variables", t)),
                None => None,
            },
            DataType::EnumType { name, elements } => match elements.debug_text() {
                Some(t) => Some(record_of2("EnumType", "name", name_option_string(name), "elements", t)),
                None => None,
            },
            DataType::SubRangeType { name, referenced_type, bounds } => {
                let b = match statement_option_string(bounds) {
                    Some(t) => t,
                    None => return None,
                };
                let n = name_option_string(name);
                let rt = str_debug(referenced_type.as_str());
                let ghost (nt, rtt, bt) = (n@, rt@, b@);
                let fields = vec![field("name", n), field("referenced_type", rt), field("bounds", b)];
                assert(fields@.map_values(|p: String| p@) =~= seq![
                    field_text("name"@, nt),
                    field_text("referenced_type"@, rtt),
                    field_text("bounds"@, bt),
                ]);
                Some(record("SubRangeType", &fields))
            },
            DataType::ArrayType { name, bounds, referenced_type } => {
                let b = match bounds.debug_text() {
                    Some(t) => t,
                    None => return None,
                };
                let rt = match referenced_type.debug_text() {
                    Some(t) => t,
                    None => return None,
                };
                let n = name_option_string(name);
                let ghost (nt, bt, rtt) = (n@, b@, rt@);
                let fields = vec![field("name", n), field("bounds", b), field("referenced_type", rt)];
                assert(fields@.map_values(|p: String| p@) =~= seq![
                    field_text("name"@, nt),
                    field_text("bounds"@, bt),
                    field_text("referenced_type"@, rtt),
                ]);
                Some(record("ArrayType", &fields))
            },
            DataType::PointerType { name, referenced_type } => match referenced_type.debug_text() {
                Some(t) => Some(
                    record_of2("PointerType", "name", name_option_string(name), "referenced_type", t),
                ),
                None => None,
            },
            DataType::StringType { name, is_wide, size } => {
                let sz = match statement_option_string(size) {
                    Some(t) => t,
                    None => return None,
                };
                let n = name_option_string(name);
                let w = bool_string(*is_wide);
                let ghost (nt, wt, st) = (n@, w@, sz@);
                let fields = vec![field("name", n), field("is_wide", w), field("size", sz)];
                assert(fields@.map_values(|p: String| p@) =~= seq![
                    field_text("name"@, nt),
                    field_text("is_wide"@, wt),
                    field_text("size"@, st),
                ]);
                Some(record("StringType", &fields))
            },
            DataType::VarArgs { referenced_type } => match referenced_type {
                Some(d) => match d.debug_text() {
                    Some(t) => Some(record_of1("VarArgs", "referenced_type", option(Some(t)))),
                    None => None,
                },
                None => Some(record_of1("VarArgs", "referenced_type", option(None))),
            },
            DataType::GenericType { name, generic_symbol, .. } => Some(
                record_of2(
                    "GenericType",
                    "name",
                    str_debug(name.as_str()),
                    "generic_symbol",
                    str_debug(generic_symbol.as_str()),
                ),
            ),
        }
    }
}

/// The text of a kind of POU as `{:?}` writes it.
pub open spec fn pou_type_text(t: PouType) -> Seq<char> {
    match t {
        PouType::Program => "Program"@,
        PouType::Function => "Function"@,
        PouType::FunctionBlock => "FunctionBlock"@,
        PouType::Action => "Action"@,
        PouType::Class => "Class"@,
        PouType::Method { owner_class } => record1(
            "Method"@,
            "owner_class"@,
            str_debug_text(owner_class@),
        ),
    }
}

/// The name of a kind of variable block.
pub open spec fn block_type_name(t: VariableBlockType) -> Seq<char> {
    match t {
        VariableBlockType::Local => "Local"@,
        VariableBlockType::Temp => "Temp"@,
        VariableBlockType::Input => "Input"@,
        VariableBlockType::Output => "Output"@,
        VariableBlockType::Global => "Global"@,
        VariableBlockType::InOut => "InOut"@,
    }
}

/// The text of a top-level type declaration as `{:?}` writes it: its type
/// and its initializer.
pub open spec fn user_type_debug(t: UserTypeDeclaration) -> Seq<char> {
    record2(
        "UserTypeDeclaration"@,
        "data_type"@,
        type_debug(t.data_type),
        "initializer"@,
        statement_option_text(t.initializer),
    )
}

/// Whether a top-level type declaration holds a duration literal.
pub open spec fn user_type_duration(t: UserTypeDeclaration) -> bool {
    type_duration(t.data_type) || option_duration(t.initializer)
}

/// The text of a variable block as `{:?}` writes it: its variables and its
/// kind.
pub open spec fn block_debug(b: VariableBlock) -> Seq<char> {
    record2(
        "VariableBlock"@,
        "variables"@,
        list_text(variables_debug(b.variables@)),
        "variable_block_type"@,
        block_type_name(b.variable_block_type),
    )
}

/// The texts of the blocks, one for each.
pub open spec fn blocks_debug(bs: Seq<VariableBlock>) -> Seq<Seq<char>>
    decreases bs.len(),
{
    if bs.len() == 0 {
        seq![]
    } else {
        blocks_debug(bs.drop_last()).push(block_debug(bs.last()))
    }
}

/// Whether one of the blocks holds a duration literal.
pub open spec fn blocks_hold_duration(bs: Seq<VariableBlock>) -> bool
    decreases bs.len(),
{
    if bs.len() == 0 {
        false
    } else {
        blocks_hold_duration(bs.drop_last()) || variables_duration(bs.last().variables@)
    }
}

/// The text of a POU as `{:?}` writes it: its name, variable blocks, kind
/// and return type.
pub open spec fn pou_debug(p: Pou) -> Seq<char> {
    let rt = match p.return_type {
        Some(d) => Some(declaration_debug(d)),
        None => None,
    };
    record_text(
        "POU"@,
        seq![
            field_text("name"@, str_debug_text(p.name@)),
            field_text("variable_blocks"@, list_text(blocks_debug(p.variable_blocks@))),
            field_text("pou_type"@, pou_type_text(p.pou_type)),
            field_text("return_type"@, option_text(rt)),
        ],
    )
}

/// Whether a POU holds a duration literal.
pub open spec fn pou_duration(p: Pou) -> bool {
    blocks_hold_duration(p.variable_blocks@) || match p.return_type {
        Some(d) => declaration_duration(d),
        None => false,
    }
}

impl UserTypeDeclaration {
    /// The text of the declaration as `{:?}` writes it (see
    /// `user_type_debug`); `None` where it holds a duration literal.
    pub fn debug_text(&self) -> (r: Option<String>)
        ensures
            match r {
                Some(t) => !user_type_duration(*self) && t@ == user_type_debug(*self),
                None => user_type_duration(*self),
            },
    {
        let d = match self.data_type.debug_text() {
            Some(t) => t,
            None => return None,
        };
        let i = match statement_option_string(&self.initializer) {
            Some(t) => t,
            None => return None,
        };
        Some(record_of2("UserTypeDeclaration", "data_type", d, "initializer", i))
    }
}

impl VariableBlock {
    /// The text of the block as `{:?}` writes it (see `block_debug`); `None`
    /// where it holds a duration literal.
    pub fn debug_text(&self) -> (r: Option<String>)
        ensures
            match r {
                Some(t) => !variables_duration(self.variables@) && t@ == block_debug(*self),
                None => variables_duration(self.variables@),
            },
    {
        proof {
            reveal_strlit("Local");
            reveal_strlit("Temp");
            reveal_strlit("Input");
            reveal_strlit("Output");
            reveal_strlit("Global");
            reveal_strlit("InOut");
        }
        let vars = match variables_string(&self.variables) {
            Some(t) => t,
            None => return None,
        };
        let kind = match self.variable_block_type {
            VariableBlockType::Local => "Local",
            VariableBlockType::Temp => "Temp",
            VariableBlockType::Input => "Input",
            VariableBlockType::Output => "Output",
            VariableBlockType::Global => "Global",
            VariableBlockType::InOut => "InOut",
        };
        Some(record_of2("VariableBlock", "variables", vars, "variable_block_type", String::from_str(kind)))
    }
}

/// A prefix of blocks with a duration literal makes the whole hold one.
proof fn lemma_blocks_hold_duration_prefix(bs: Seq<VariableBlock>, k: int)
    requires
        0 <= k <= bs.len(),
        blocks_hold_duration(bs.subrange(0, k)),
    ensures
        blocks_hold_duration(bs),
    decreases bs.len() - k,
{
    if k < bs.len() {
        assert(bs.subrange(0, k + 1).drop_last() =~= bs.subrange(0, k));
        lemma_blocks_hold_duration_prefix(bs, k + 1);
    } else {
        assert(bs.subrange(0, k) =~= bs);
    }
}

/// The text of a kind of POU.
fn pou_type_string(t: &PouType) -> (r: String)
    ensures
        r@ == pou_type_text(*t),
{
    proof {
        reveal_strlit("Program");
        reveal_strlit("Function");
        reveal_strlit("FunctionBlock");
        reveal_strlit("Action");
        reveal_strlit("Class");
    }
    match t {
        PouType::Program => String::from_str("Program"),
        PouType::Function => String::from_str("Function"),
        PouType::FunctionBlock => String::from_str("FunctionBlock"),
        PouType::Action => String::from_str("Action"),
        PouType::Class => String::from_str("Class"),
        PouType::Method { owner_class } => record_of1(
            "Method",
            "owner_class",
            str_debug(owner_class.as_str()),
        ),
    }
}

impl Pou {
    /// The text of the POU as `{:?}` writes it (see `pou_debug`); `None`
    /// where it holds a duration literal.
    pub fn debug_text(&self) -> (r: Option<String>)
        ensures
            match r {
                Some(t) => !pou_duration(*self) && t@ == pou_debug(*self),
                None => pou_duration(*self),
            },
    {
        let bs = &self.variable_blocks;
        let mut texts: Vec<String> = Vec::new();
        let mut i: usize = 0;
        while i < bs.len()
            invariant
                i <= bs.len(),
                bs@ == self.variable_blocks@,
                texts@.len() == i,
                texts@.map_values(|p: String| p@) == blocks_debug(bs@.subrange(0, i as int)),
                !blocks_hold_duration(bs@.subrange(0, i as int)),
            decreases bs.len() - i,
        {
            assert(bs@.subrange(0, i + 1).drop_last() =~= bs@.subrange(0, i as int));
            let text = match bs[i].debug_text() {
                Some(t) => t,
                None => {
                    proof {
                        assert(bs@.subrange(0, i + 1).last() == bs@[i as int]);
                        assert(blocks_hold_duration(bs@.subrange(0, i + 1)));
                        lemma_blocks_hold_duration_prefix(bs@, i + 1);
                        assert(blocks_hold_duration(self.variable_blocks@));
                        assert(pou_duration(*self));
                    }
                    return None;
                },
            };
            let ghost before = texts@;
            texts.push(text);
            i = i + 1;
            assert(texts@.map_values(|p: String| p@) =~= before.map_values(|p: String| p@).push(
                texts@[i - 1]@,
            ));
        }
        assert(bs@.subrange(0, bs.len() as int) =~= bs@);
        let blocks = list(&texts);
        let rt = match &self.return_type {
            Some(d) => match d.debug_text() {
                Some(t) => option(Some(t)),
                None => return None,
            },
            None => option(None),
        };
        let name = str_debug(self.name.as_str());
        let kind = pou_type_string(&self.pou_type);
        let ghost (nt, bt, kt, rtt) = (name@, blocks@, kind@, rt@);
        let fields = vec![
            field("name", name),
            field("variable_blocks", blocks),
            field("pou_type", kind),
            field("return_type", rt),
        ];
        assert(fields@.map_values(|p: String| p@) =~= seq![
            field_text("name"@, nt),
            field_text("variable_blocks"@, bt),
            field_text("pou_type"@, kt),
            field_text("return_type"@, rtt),
        ]);
        Some(record("POU", &fields))
    }
}

} // verus!
