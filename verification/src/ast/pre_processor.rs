use vstd::prelude::*;

use crate::ast::{
    deref_all, flatten_expression_list, flattened, id_after, AstId, Operator, AstStatement, CompilationUnit, DataType, DataTypeDeclaration, GenericBinding, IdProvider, Pou,
    SourceRange, UserTypeDeclaration, Variable, VariableBlock,
};

verus! {

// ---------------------------------------------------------------------------
// Names of the implicit types
// ---------------------------------------------------------------------------
/// The name of the implicit type of variable `name` declared in `container`:
/// `__container_name`.
pub open spec fn implicit_type_name(container: Seq<char>, name: Seq<char>) -> Seq<char> {
    "__"@ + container + "_"@ + name
}

/// The name of the implicit type nested in a type named `container`:
/// `container_`.
pub open spec fn nested_type_name(container: Seq<char>) -> Seq<char> {
    container + "_"@
}

/// The name of the implicit return type of a POU: `__pou_return`.
pub open spec fn return_type_name(pou: Seq<char>) -> Seq<char> {
    "__"@ + pou + "_return"@
}

/// The name of the type of a generic parameter of a POU: `__pou__symbol`.
pub open spec fn generic_type_name(pou: Seq<char>, symbol: Seq<char>) -> Seq<char> {
    "__"@ + pou + "__"@ + symbol
}

/// The name of the implicit inner type of an array or pointer type named
/// `container`: `__container`.
pub open spec fn inner_type_name(container: Seq<char>) -> Seq<char> {
    "__"@ + container
}

/// The name of a type that contains variables: its own, or `undefined`.
pub open spec fn container_name(name: Option<String>) -> Seq<char> {
    match name {
        Some(n) => n@,
        None => "undefined"@,
    }
}

/// The names of the implicit types, character by character: a variable's type
/// `__container_name`, a nested type `container_`, a return type
/// `__pou_return`, a generic parameter's type `__pou__symbol`, an inner type
/// `__container`; a container without a name is `undefined`.
pub proof fn lemma_implicit_type_names(container: Seq<char>, name: Seq<char>)
    ensures
        implicit_type_name(container, name) == seq!['_', '_'] + container + seq!['_'] + name,
        nested_type_name(container) == container + seq!['_'],
        return_type_name(container) == seq!['_', '_'] + container + seq!['_', 'r', 'e', 't', 'u', 'r', 'n'],
        generic_type_name(container, name) == seq!['_', '_'] + container + seq!['_', '_'] + name,
        inner_type_name(container) == seq!['_', '_'] + container,
        container_name(None) == seq!['u', 'n', 'd', 'e', 'f', 'i', 'n', 'e', 'd'],
{
    reveal_strlit("__");
    reveal_strlit("_");
    reveal_strlit("_return");
    reveal_strlit("undefined");
    assert(implicit_type_name(container, name) =~= seq!['_', '_'] + container + seq!['_'] + name);
    assert(nested_type_name(container) =~= container + seq!['_']);
    assert(return_type_name(container) =~= seq!['_', '_'] + container + seq!['_', 'r', 'e', 't', 'u', 'r', 'n']);
    assert(generic_type_name(container, name) =~= seq!['_', '_'] + container + seq!['_', '_'] + name);
    assert(inner_type_name(container) =~= seq!['_', '_'] + container);
    assert(container_name(None) =~= seq!['u', 'n', 'd', 'e', 'f', 'i', 'n', 'e', 'd']);
}

// ---------------------------------------------------------------------------
// Parts of declarations
// ---------------------------------------------------------------------------
/// Whether a declaration defines its type in place (other than `...`), so
/// that an implicit named type is generated for it.
pub open spec fn generates_implicit(d: DataTypeDeclaration) -> bool {
    match d {
        DataTypeDeclaration::DataTypeReference { .. } => false,
        DataTypeDeclaration::DataTypeDefinition { data_type, .. } => !(data_type is VarArgs),
    }
}

/// The type that a definition in place defines.
pub open spec fn defined_type(d: DataTypeDeclaration) -> DataType {
    match d {
        DataTypeDeclaration::DataTypeDefinition { data_type, .. } => data_type,
        _ => arbitrary(),
    }
}

/// The scope of a definition in place.
pub open spec fn defined_scope(d: DataTypeDeclaration) -> Option<String> {
    match d {
        DataTypeDeclaration::DataTypeDefinition { scope, .. } => scope,
        _ => None,
    }
}

/// The name that a reference refers to.
pub open spec fn referenced_name(d: DataTypeDeclaration) -> String {
    match d {
        DataTypeDeclaration::DataTypeReference { referenced_type, .. } => referenced_type,
        _ => arbitrary(),
    }
}

/// The name that the inner type of an array or pointer type refers to.
pub open spec fn inner_referenced_name(dt: DataType) -> String {
    referenced_name(dt.inner_declaration())
}

/// A type declared at the top level with no initializer.
pub open spec fn implicit_declaration(
    data_type: DataType,
    location: SourceRange,
    scope: Option<String>,
) -> UserTypeDeclaration {
    UserTypeDeclaration { data_type, initializer: None, location, scope }
}

/// How deep definitions in place are nested inside an array or pointer type.
pub open spec fn definition_depth(dt: DataType) -> nat
    decreases dt,
{
    match dt {
        DataType::ArrayType { referenced_type, .. } => match *referenced_type {
            DataTypeDeclaration::DataTypeDefinition { data_type, .. } => 1 + definition_depth(
                data_type,
            ),
            _ => 0,
        },
        DataType::PointerType { referenced_type, .. } => match *referenced_type {
            DataTypeDeclaration::DataTypeDefinition { data_type, .. } => 1 + definition_depth(
                data_type,
            ),
            _ => 0,
        },
        _ => 0,
    }
}

/// Renaming a type does not change how deep definitions are nested in it.
pub proof fn lemma_depth_with_name(dt: DataType, s: String)
    ensures
        definition_depth(dt.with_name(s)) == definition_depth(dt),
{
}

// ---------------------------------------------------------------------------
// Nested types
// ---------------------------------------------------------------------------
/// What pulling nested definitions out of `old_dt` gives: where `old_dt` is
/// an array or pointer type whose inner type is defined in place, `new_dt`
/// refers to it by the name `container_` at `location`, and the last of
/// `added` declares that inner type under this name (at `location`, in the
/// inner definition's scope), after its own nested definitions (named
/// `container__`, ...) were pulled out the same way; otherwise nothing
/// changes.
pub open spec fn nested_types_generated(
    container: Seq<char>,
    old_dt: DataType,
    location: SourceRange,
    new_dt: DataType,
    added: Seq<UserTypeDeclaration>,
) -> bool
    decreases definition_depth(old_dt),
{
    if old_dt.has_inner_definition() {
        let inner = old_dt.inner_declaration();
        let s = inner_referenced_name(new_dt);
        proof {
            lemma_depth_with_name(defined_type(inner), s);
        }
        &&& s@ == nested_type_name(container)
        &&& new_dt == old_dt.with_inner_declaration(
            DataTypeDeclaration::DataTypeReference { referenced_type: s, location },
        )
        &&& added.len() > 0
        &&& added.last() == implicit_declaration(
            added.last().data_type,
            location,
            defined_scope(inner),
        )
        &&& nested_types_generated(
            nested_type_name(container),
            defined_type(inner).with_name(s),
            inner.location_of(),
            added.last().data_type,
            added.drop_last(),
        )
    } else {
        new_dt == old_dt && added.len() == 0
    }
}

fn should_generate_implicit(datatype: &DataTypeDeclaration) -> (r: bool)
    ensures
        r == generates_implicit(*datatype),
{
    match datatype {
        DataTypeDeclaration::DataTypeReference { .. } => false,
        DataTypeDeclaration::DataTypeDefinition { data_type: DataType::VarArgs { .. }, .. } => false,
        DataTypeDeclaration::DataTypeDefinition { .. } => true,
    }
}

fn should_generate_implicit_type(variable: &Variable) -> (r: bool)
    ensures
        r == generates_implicit(variable.data_type),
{
    should_generate_implicit(&variable.data_type)
}

/// `types` grew by `added`.
pub open spec fn extended_by(
    old_types: Seq<UserTypeDeclaration>,
    new_types: Seq<UserTypeDeclaration>,
    added: Seq<UserTypeDeclaration>,
) -> bool {
    new_types == old_types + added
}

/// The declarations that `types` holds after `old_len` of them.
pub open spec fn appended(types: Seq<UserTypeDeclaration>, old_len: int) -> Seq<
    UserTypeDeclaration,
> {
    types.subrange(old_len, types.len() as int)
}

fn concat3(a: &str, b: &str, c: &str) -> (r: String)
    ensures
        r@ == a@ + b@ + c@,
{
    String::from_str(a).concat(b).concat(c)
}

fn add_nested_datatypes(
    container_name: &str,
    datatype: &mut DataType,
    types: &mut Vec<UserTypeDeclaration>,
    location: &SourceRange,
)
    ensures
        final(types)@.len() >= old(types)@.len(),
        final(types)@.subrange(0, old(types)@.len() as int) == old(types)@,
        nested_types_generated(
            container_name@,
            *old(datatype),
            *location,
            *final(datatype),
            appended(final(types)@, old(types)@.len() as int),
        ),
    decreases definition_depth(*old(datatype)),
{
    proof {
        reveal_strlit("_");
    }
    let new_type_name = String::from_str(container_name).concat("_");
    let ghost old_dt = *datatype;
    let ghost old_types = types@;
    let replaced = datatype.replace_data_type_with_reference_to(new_type_name.clone(), location);
    if let Some(DataTypeDeclaration::DataTypeDefinition { mut data_type, location: inner_location, scope }) = replaced {
        let ghost renamed = data_type.with_name(new_type_name);
        data_type.set_name(new_type_name.clone());
        proof {
            lemma_depth_with_name(defined_type(old_dt.inner_declaration()), new_type_name);
        }
        add_nested_datatypes(new_type_name.as_str(), &mut data_type, types, &inner_location);
        let ghost mid_types = types@;
        types.push(UserTypeDeclaration { data_type, initializer: None, location: *location, scope });
        proof {
            let added = appended(types@, old_types.len() as int);
            assert(added.drop_last() =~= appended(mid_types, old_types.len() as int));
            assert(types@.subrange(0, old_types.len() as int) =~= mid_types.subrange(
                0,
                old_types.len() as int,
            ));
        }
    } else {
        proof {
            assert(appended(types@, old_types.len() as int) =~= Seq::<UserTypeDeclaration>::empty());
            assert(types@.subrange(0, old_types.len() as int) =~= types@);
        }
    }
}

// ---------------------------------------------------------------------------
// Variables and return types
// ---------------------------------------------------------------------------
/// What giving a variable declared in `container` its implicit type makes of
/// it: where its type is defined in place (and is not `...`), the variable
/// refers to `__container_name` (at the location of the definition), and the
/// last of `added` declares the defined type under that name, after the types
/// nested in it (see `nested_types_generated`); otherwise nothing changes.
pub open spec fn variable_type_generated(
    container: Seq<char>,
    old_v: Variable,
    new_v: Variable,
    added: Seq<UserTypeDeclaration>,
) -> bool {
    if generates_implicit(old_v.data_type) {
        let d = old_v.data_type;
        let s = referenced_name(new_v.data_type);
        &&& s@ == implicit_type_name(container, old_v.name@)
        &&& new_v == Variable {
            data_type: DataTypeDeclaration::DataTypeReference {
                referenced_type: s,
                location: d.location_of(),
            },
            ..old_v
        }
        &&& added.len() > 0
        &&& added.last() == implicit_declaration(
            added.last().data_type,
            d.location_of(),
            defined_scope(d),
        )
        &&& nested_types_generated(
            s@,
            defined_type(d).with_name(s),
            d.location_of(),
            added.last().data_type,
            added.drop_last(),
        )
    } else {
        new_v == old_v && added.len() == 0
    }
}

fn pre_process_variable_data_type(
    container_name: &str,
    variable: &mut Variable,
    types: &mut Vec<UserTypeDeclaration>,
)
    requires
        generates_implicit(old(variable).data_type),
    ensures
        final(types)@.len() >= old(types)@.len(),
        final(types)@.subrange(0, old(types)@.len() as int) == old(types)@,
        variable_type_generated(
            container_name@,
            *old(variable),
            *final(variable),
            appended(final(types)@, old(types)@.len() as int),
        ),
{
    proof {
        reveal_strlit("__");
        reveal_strlit("_");
    }
    let ghost old_types = types@;
    let new_type_name = concat3("__", container_name, "_").concat(variable.name.as_str());
    if let DataTypeDeclaration::DataTypeDefinition { mut data_type, location, scope } =
        variable.replace_data_type_with_reference_to(new_type_name.clone()) {
        // create index entry
        data_type.set_name(new_type_name.clone());
        add_nested_datatypes(new_type_name.as_str(), &mut data_type, types, &location);
        let ghost mid_types = types@;
        types.push(UserTypeDeclaration { data_type, initializer: None, location, scope });
        proof {
            let added = appended(types@, old_types.len() as int);
            assert(added.drop_last() =~= appended(mid_types, old_types.len() as int));
            assert(types@.subrange(0, old_types.len() as int) =~= mid_types.subrange(
                0,
                old_types.len() as int,
            ));
        }
    }
    //make sure it gets generated
}

/// What giving a POU's return type its implicit type makes of it: where it
/// is defined in place (and is not `...`), the POU returns `__pou_return`
/// (at the location of the definition), and the last of `added` declares the
/// defined type under that name, after the types nested in it, which are
/// named after the POU (`pou_`, ...); otherwise nothing changes.
pub open spec fn return_type_generated(
    pou_name: Seq<char>,
    old_rt: Option<DataTypeDeclaration>,
    new_rt: Option<DataTypeDeclaration>,
    added: Seq<UserTypeDeclaration>,
) -> bool {
    match old_rt {
        Some(d) => if generates_implicit(d) {
            let s = referenced_name(new_rt.unwrap());
            &&& s@ == return_type_name(pou_name)
            &&& new_rt == Some(
                DataTypeDeclaration::DataTypeReference {
                    referenced_type: s,
                    location: d.location_of(),
                },
            )
            &&& added.len() > 0
            &&& added.last() == implicit_declaration(
                added.last().data_type,
                d.location_of(),
                defined_scope(d),
            )
            &&& nested_types_generated(
                pou_name,
                defined_type(d).with_name(s),
                d.location_of(),
                added.last().data_type,
                added.drop_last(),
            )
        } else {
            new_rt == old_rt && added.len() == 0
        },
        None => new_rt is None && added.len() == 0,
    }
}

fn preprocess_return_type(
    pou_name: &String,
    return_type: &mut Option<DataTypeDeclaration>,
    types: &mut Vec<UserTypeDeclaration>,
)
    ensures
        final(types)@.len() >= old(types)@.len(),
        final(types)@.subrange(0, old(types)@.len() as int) == old(types)@,
        return_type_generated(
            pou_name@,
            *old(return_type),
            *final(return_type),
            appended(final(types)@, old(types)@.len() as int),
        ),
{
    proof {
        reveal_strlit("__");
        reveal_strlit("_return");
    }
    let ghost old_types = types@;
    let generate = match return_type {
        Some(rt) => should_generate_implicit(rt),
        None => false,
    };
    if generate {
        let ret_type_name = concat3("__", pou_name.as_str(), "_return");
        let rt_location = match return_type {
            Some(rt) => rt.get_location(),
            None => SourceRange::undefined(),
        };
        let type_ref = DataTypeDeclaration::DataTypeReference {
            referenced_type: ret_type_name.clone(),
            location: rt_location,
        };
        let mut datatype = Some(type_ref);
        std::mem::swap(return_type, &mut datatype);
        if let Some(DataTypeDeclaration::DataTypeDefinition { mut data_type, location, scope }) =
            datatype {
            data_type.set_name(ret_type_name);
            add_nested_datatypes(pou_name.as_str(), &mut data_type, types, &location);
            let ghost mid_types = types@;
            types.push(UserTypeDeclaration { data_type, initializer: None, location, scope });
            proof {
                let added = appended(types@, old_types.len() as int);
                assert(added.drop_last() =~= appended(mid_types, old_types.len() as int));
                assert(types@.subrange(0, old_types.len() as int) =~= mid_types.subrange(
                    0,
                    old_types.len() as int,
                ));
            }
        }
    } else {
        proof {
            assert(appended(types@, old_types.len() as int) =~= Seq::<UserTypeDeclaration>::empty());
            assert(types@.subrange(0, old_types.len() as int) =~= types@);
        }
    }
}

// ---------------------------------------------------------------------------
// Generic parameters
// ---------------------------------------------------------------------------
/// Whether `name` is one of the generic parameters.
pub open spec fn is_generic_symbol(generics: Seq<GenericBinding>, name: Seq<char>) -> bool {
    exists|i: int| 0 <= i < generics.len() && #[trigger] generics[i].name@ == name
}

/// What replacing the generic parameters of POU `pou` makes of a
/// declaration: a reference to a parameter `T` refers to `__pou__T` instead,
/// and so do such references inside arrays and pointers defined in place;
/// everything else stays.
pub open spec fn generics_replaced(
    pou: Seq<char>,
    generics: Seq<GenericBinding>,
    old_d: DataTypeDeclaration,
    new_d: DataTypeDeclaration,
) -> bool
    decreases old_d,
{
    match old_d {
        DataTypeDeclaration::DataTypeReference { referenced_type, location } => if is_generic_symbol(
            generics,
            referenced_type@,
        ) {
            &&& new_d == DataTypeDeclaration::DataTypeReference {
                referenced_type: referenced_name(new_d),
                location,
            }
            &&& referenced_name(new_d)@ == generic_type_name(pou, referenced_type@)
        } else {
            new_d == old_d
        },
        DataTypeDeclaration::DataTypeDefinition { data_type, location, scope } => match data_type {
            DataType::ArrayType { name, bounds, referenced_type } => match new_d {
                DataTypeDeclaration::DataTypeDefinition {
                    data_type: DataType::ArrayType { name: n2, bounds: b2, referenced_type: r2 },
                    location: l2,
                    scope: s2,
                } => n2 == name && b2 == bounds && l2 == location && s2 == scope
                    && generics_replaced(pou, generics, *referenced_type, *r2),
                _ => false,
            },
            DataType::PointerType { name, referenced_type } => match new_d {
                DataTypeDeclaration::DataTypeDefinition {
                    data_type: DataType::PointerType { name: n2, referenced_type: r2 },
                    location: l2,
                    scope: s2,
                } => n2 == name && l2 == location && s2 == scope && generics_replaced(
                    pou,
                    generics,
                    *referenced_type,
                    *r2,
                ),
                _ => false,
            },
            _ => new_d == old_d,
        },
    }
}

fn is_generic(generics: &Vec<GenericBinding>, name: &String) -> (r: bool)
    ensures
        r == is_generic_symbol(generics@, name@),
{
    let mut i: usize = 0;
    while i < generics.len()
        invariant
            i <= generics.len(),
            forall|j: int| 0 <= j < i ==> #[trigger] generics@[j].name@ != name@,
        decreases generics.len() - i,
    {
        if generics[i].name == *name {
            return true;
        }
        i = i + 1;
    }
    false
}

fn replace_generic_type_name(
    dt: &mut DataTypeDeclaration,
    pou_name: &String,
    generics: &Vec<GenericBinding>,
)
    ensures
        generics_replaced(pou_name@, generics@, *old(dt), *final(dt)),
    decreases *old(dt),
{
    proof {
        reveal_strlit("__");
    }
    match dt {
        DataTypeDeclaration::DataTypeDefinition { data_type, .. } => match data_type {
            DataType::ArrayType { referenced_type, .. } => replace_generic_type_name(
                &mut **referenced_type,
                pou_name,
                generics,
            ),
            DataType::PointerType { referenced_type, .. } => replace_generic_type_name(
                &mut **referenced_type,
                pou_name,
                generics,
            ),
            _ => {},
        },
        DataTypeDeclaration::DataTypeReference { referenced_type, .. } => {
            if is_generic(generics, referenced_type) {
                let generic_name = concat3("__", pou_name.as_str(), "__").concat(
                    referenced_type.as_str(),
                );
                *referenced_type = generic_name;
            }
        },
    }
}

// ---------------------------------------------------------------------------
// Variable blocks
// ---------------------------------------------------------------------------
/// The variable at position `v` of block `b`.
pub open spec fn var_at(blocks: Seq<VariableBlock>, b: int, v: int) -> Variable {
    blocks[b].variables@[v]
}

/// Two blocks that differ at most in their variables.
pub open spec fn same_block_header(a: VariableBlock, b: VariableBlock) -> bool {
    &&& a.access == b.access
    &&& a.constant == b.constant
    &&& a.retain == b.retain
    &&& a.variable_block_type == b.variable_block_type
}

/// The variable with its type declaration replaced, as `generics_replaced`
/// says.
pub open spec fn generic_var(
    pou: Seq<char>,
    generics: Seq<GenericBinding>,
    old_v: Variable,
    new_v: Variable,
) -> bool {
    &&& new_v == Variable { data_type: new_v.data_type, ..old_v }
    &&& generics_replaced(pou, generics, old_v.data_type, new_v.data_type)
}

/// A block whose variables had their generic parameters replaced.
pub open spec fn block_generics_replaced(
    pou: Seq<char>,
    generics: Seq<GenericBinding>,
    old_b: VariableBlock,
    new_b: VariableBlock,
) -> bool {
    &&& same_block_header(old_b, new_b)
    &&& new_b.variables@.len() == old_b.variables@.len()
    &&& forall|v: int|
        0 <= v < old_b.variables@.len() ==> generic_var(
            pou,
            generics,
            old_b.variables@[v],
            #[trigger] new_b.variables@[v],
        )
}

/// Blocks whose variables had their generic parameters replaced.
pub open spec fn blocks_generics_replaced(
    pou: Seq<char>,
    generics: Seq<GenericBinding>,
    old_bs: Seq<VariableBlock>,
    new_bs: Seq<VariableBlock>,
) -> bool {
    &&& new_bs.len() == old_bs.len()
    &&& forall|b: int|
        0 <= b < old_bs.len() ==> block_generics_replaced(
            pou,
            generics,
            old_bs[b],
            #[trigger] new_bs[b],
        )
}

fn replace_generics_in_block(
    block: &mut VariableBlock,
    pou_name: &String,
    generics: &Vec<GenericBinding>,
)
    ensures
        block_generics_replaced(pou_name@, generics@, *old(block), *final(block)),
{
    let ghost old_vars = block.variables@;
    let mut v: usize = 0;
    while v < block.variables.len()
        invariant
            v <= block.variables@.len(),
            block.variables@.len() == old_vars.len(),
            same_block_header(*old(block), *block),
            forall|k: int|
                0 <= k < v ==> generic_var(
                    pou_name@,
                    generics@,
                    old_vars[k],
                    #[trigger] block.variables@[k],
                ),
            forall|k: int| v <= k < old_vars.len() ==> #[trigger] block.variables@[k] == old_vars[k],
        decreases old_vars.len() - v,
    {
        replace_generic_type_name(&mut block.variables[v].data_type, pou_name, generics);
        v = v + 1;
    }
}

/// The declaration of the type of a generic parameter of `pou`: a generic
/// type `__pou__T` for parameter `T`, with the parameter's nature, at the
/// POU's location, in the POU's scope.
pub open spec fn generic_declared(pou: Pou, binding: GenericBinding, t: UserTypeDeclaration) -> bool {
    &&& t.initializer is None
    &&& t.location == pou.location
    &&& t.scope == Some(pou.name)
    &&& t.data_type matches DataType::GenericType { name, generic_symbol, nature }
        && name@ == generic_type_name(pou.name@, binding.name@) && generic_symbol == binding.name
        && nature == binding.nature
}

/// One generic type per generic parameter, in order.
pub open spec fn generic_types_declared(pou: Pou, types: Seq<UserTypeDeclaration>) -> bool {
    &&& types.len() == pou.generics@.len()
    &&& forall|i: int|
        0 <= i < types.len() ==> generic_declared(pou, pou.generics@[i], #[trigger] types[i])
}

/// The return type with its generic parameters replaced.
pub open spec fn return_generics_replaced(
    pou: Seq<char>,
    generics: Seq<GenericBinding>,
    old_rt: Option<DataTypeDeclaration>,
    new_rt: Option<DataTypeDeclaration>,
) -> bool {
    match old_rt {
        Some(d) => new_rt matches Some(d2) && generics_replaced(pou, generics, d, d2),
        None => new_rt is None,
    }
}

/// What resolving the generic parameters of a POU makes of it: the types of
/// its variables and its return type refer to the generic types instead of
/// the parameters, and `types` declares one generic type per parameter.
pub open spec fn generic_structs_processed(
    old_p: Pou,
    new_p: Pou,
    types: Seq<UserTypeDeclaration>,
) -> bool {
    &&& new_p.name == old_p.name
    &&& new_p.pou_type == old_p.pou_type
    &&& new_p.location == old_p.location
    &&& new_p.poly_mode == old_p.poly_mode
    &&& new_p.generics == old_p.generics
    &&& blocks_generics_replaced(
        old_p.name@,
        old_p.generics@,
        old_p.variable_blocks@,
        new_p.variable_blocks@,
    )
    &&& return_generics_replaced(
        old_p.name@,
        old_p.generics@,
        old_p.return_type,
        new_p.return_type,
    )
    &&& generic_types_declared(old_p, types)
}

fn preprocess_generic_structs(pou: &mut Pou) -> (r: Vec<UserTypeDeclaration>)
    ensures
        generic_structs_processed(*old(pou), *final(pou), r@),
{
    proof {
        reveal_strlit("__");
    }
    let mut types: Vec<UserTypeDeclaration> = Vec::new();
    let mut i: usize = 0;
    while i < pou.generics.len()
        invariant
            i <= pou.generics@.len(),
            *pou == *old(pou),
            types@.len() == i,
            forall|k: int| 0 <= k < i ==> generic_declared(*pou, pou.generics@[k], #[trigger] types@[k]),
        decreases pou.generics@.len() - i,
    {
        let binding = &pou.generics[i];
        let new_name = concat3("__", pou.name.as_str(), "__").concat(binding.name.as_str());
        //Generate a type for the generic
        let data_type = UserTypeDeclaration {
            data_type: DataType::GenericType {
                name: new_name,
                generic_symbol: binding.name.clone(),
                nature: binding.nature,
            },
            initializer: None,
            scope: Some(pou.name.clone()),
            location: pou.location,
        };
        types.push(data_type);
        i = i + 1;
    }
    let ghost old_blocks = pou.variable_blocks@;
    let mut b: usize = 0;
    while b < pou.variable_blocks.len()
        invariant
            b <= pou.variable_blocks@.len(),
            pou.variable_blocks@.len() == old_blocks.len(),
            old_blocks == old(pou).variable_blocks@,
            pou.name == old(pou).name,
            pou.pou_type == old(pou).pou_type,
            pou.location == old(pou).location,
            pou.poly_mode == old(pou).poly_mode,
            pou.generics == old(pou).generics,
            pou.return_type == old(pou).return_type,
            forall|k: int|
                0 <= k < b ==> block_generics_replaced(
                    pou.name@,
                    pou.generics@,
                    old_blocks[k],
                    #[trigger] pou.variable_blocks@[k],
                ),
            forall|k: int|
                b <= k < old_blocks.len() ==> #[trigger] pou.variable_blocks@[k] == old_blocks[k],
        decreases old_blocks.len() - b,
    {
        replace_generics_in_block(&mut pou.variable_blocks[b], &pou.name, &pou.generics);
        b = b + 1;
    }
    match &mut pou.return_type {
        Some(datatype) => replace_generic_type_name(datatype, &pou.name, &pou.generics),
        None => {},
    }
    types
}

// ---------------------------------------------------------------------------
// Implicit types of variables and POUs
// ---------------------------------------------------------------------------
/// The declarations of a sequence of parts, one part after the other.
pub open spec fn joined(parts: Seq<Seq<UserTypeDeclaration>>) -> Seq<UserTypeDeclaration>
    decreases parts.len(),
{
    if parts.len() == 0 {
        seq![]
    } else {
        joined(parts.drop_last()) + parts.last()
    }
}

/// The declarations of a sequence of groups of parts, one after the other.
pub open spec fn joined2(parts: Seq<Seq<Seq<UserTypeDeclaration>>>) -> Seq<UserTypeDeclaration>
    decreases parts.len(),
{
    if parts.len() == 0 {
        seq![]
    } else {
        joined2(parts.drop_last()) + joined(parts.last())
    }
}

/// Variables that were given their implicit types, `parts[v]` being the
/// types declared for variable `v`.
pub open spec fn vars_types_generated(
    container: Seq<char>,
    old_vars: Seq<Variable>,
    new_vars: Seq<Variable>,
    parts: Seq<Seq<UserTypeDeclaration>>,
) -> bool {
    &&& new_vars.len() == old_vars.len()
    &&& parts.len() == old_vars.len()
    &&& forall|v: int|
        0 <= v < old_vars.len() ==> variable_type_generated(
            container,
            old_vars[v],
            #[trigger] new_vars[v],
            parts[v],
        )
}

/// A block whose variables were given their implicit types, `parts[v]` being
/// the types declared for variable `v`.
pub open spec fn block_types_generated(
    container: Seq<char>,
    old_b: VariableBlock,
    new_b: VariableBlock,
    parts: Seq<Seq<UserTypeDeclaration>>,
) -> bool {
    &&& same_block_header(old_b, new_b)
    &&& vars_types_generated(container, old_b.variables@, new_b.variables@, parts)
}

/// Blocks whose variables were given their implicit types, `parts[b]` being
/// the types declared for block `b`.
pub open spec fn blocks_types_generated(
    container: Seq<char>,
    old_bs: Seq<VariableBlock>,
    new_bs: Seq<VariableBlock>,
    parts: Seq<Seq<Seq<UserTypeDeclaration>>>,
) -> bool {
    &&& new_bs.len() == old_bs.len()
    &&& parts.len() == old_bs.len()
    &&& forall|b: int|
        0 <= b < old_bs.len() ==> block_types_generated(
            container,
            old_bs[b],
            #[trigger] new_bs[b],
            parts[b],
        )
}

fn generate_vars_types(
    container: &str,
    variables: &mut Vec<Variable>,
    types: &mut Vec<UserTypeDeclaration>,
) -> (parts: Ghost<Seq<Seq<UserTypeDeclaration>>>)
    ensures
        vars_types_generated(container@, old(variables)@, final(variables)@, parts@),
        final(types)@ == old(types)@ + joined(parts@),
{
    let ghost old_vars = variables@;
    let ghost old_types = types@;
    let ghost mut parts: Seq<Seq<UserTypeDeclaration>> = seq![];
    let mut v: usize = 0;
    while v < variables.len()
        invariant
            v <= variables@.len(),
            variables@.len() == old_vars.len(),
            old_vars == old(variables)@,
            parts.len() == v,
            types@ == old_types + joined(parts),
            forall|k: int|
                0 <= k < v ==> variable_type_generated(
                    container@,
                    old_vars[k],
                    #[trigger] variables@[k],
                    parts[k],
                ),
            forall|k: int| v <= k < old_vars.len() ==> #[trigger] variables@[k] == old_vars[k],
        decreases old_vars.len() - v,
    {
        let ghost before = types@;
        if should_generate_implicit_type(&variables[v]) {
            pre_process_variable_data_type(container, &mut variables[v], types);
        }
        proof {
            let part = appended(types@, before.len() as int);
            assert(types@ =~= before + part);
            assert(parts.push(part).drop_last() =~= parts);
            parts = parts.push(part);
        }
        v = v + 1;
    }
    Ghost(parts)
}

fn generate_block_types(
    container: &str,
    block: &mut VariableBlock,
    types: &mut Vec<UserTypeDeclaration>,
) -> (parts: Ghost<Seq<Seq<UserTypeDeclaration>>>)
    ensures
        block_types_generated(container@, *old(block), *final(block), parts@),
        final(types)@ == old(types)@ + joined(parts@),
{
    generate_vars_types(container, &mut block.variables, types)
}

fn generate_blocks_types(
    container: &str,
    blocks: &mut Vec<VariableBlock>,
    types: &mut Vec<UserTypeDeclaration>,
) -> (parts: Ghost<Seq<Seq<Seq<UserTypeDeclaration>>>>)
    ensures
        blocks_types_generated(container@, old(blocks)@, final(blocks)@, parts@),
        final(types)@ == old(types)@ + joined2(parts@),
{
    let ghost old_blocks = blocks@;
    let ghost old_types = types@;
    let ghost mut parts: Seq<Seq<Seq<UserTypeDeclaration>>> = seq![];
    let mut b: usize = 0;
    while b < blocks.len()
        invariant
            b <= blocks@.len(),
            blocks@.len() == old_blocks.len(),
            old_blocks == old(blocks)@,
            parts.len() == b,
            types@ == old_types + joined2(parts),
            forall|k: int|
                0 <= k < b ==> block_types_generated(
                    container@,
                    old_blocks[k],
                    #[trigger] blocks@[k],
                    parts[k],
                ),
            forall|k: int| b <= k < old_blocks.len() ==> #[trigger] blocks@[k] == old_blocks[k],
        decreases old_blocks.len() - b,
    {
        let part = generate_block_types(container, &mut blocks[b], types);
        proof {
            assert(parts.push(part@).drop_last() =~= parts);
            parts = parts.push(part@);
        }
        b = b + 1;
    }
    Ghost(parts)
}

/// What pre-processing makes of a POU, step by step: `mid` is the POU with
/// its generic parameters resolved (see `generic_structs_processed`), which
/// declares `generic_types`; then its variables get their implicit types
/// (`var_parts`) and so does its return type (`ret_added`); `added` holds
/// all of these in that order.
pub open spec fn pou_pre_processed_by(
    old_p: Pou,
    new_p: Pou,
    added: Seq<UserTypeDeclaration>,
    mid: Pou,
    generic_types: Seq<UserTypeDeclaration>,
    var_parts: Seq<Seq<Seq<UserTypeDeclaration>>>,
    ret_added: Seq<UserTypeDeclaration>,
) -> bool {
    &&& generic_structs_processed(old_p, mid, generic_types)
    &&& blocks_types_generated(mid.name@, mid.variable_blocks@, new_p.variable_blocks@, var_parts)
    &&& return_type_generated(mid.name@, mid.return_type, new_p.return_type, ret_added)
    &&& new_p.name == mid.name
    &&& new_p.pou_type == mid.pou_type
    &&& new_p.location == mid.location
    &&& new_p.poly_mode == mid.poly_mode
    &&& new_p.generics == mid.generics
    &&& added == generic_types + joined2(var_parts) + ret_added
}

/// What pre-processing makes of a POU: its generic parameters are resolved,
/// then its variables and its return type get their implicit types (see
/// `pou_pre_processed_by`); `added` holds the types declared on the way.
pub open spec fn pou_pre_processed(old_p: Pou, new_p: Pou, added: Seq<UserTypeDeclaration>) -> bool {
    exists|
        mid: Pou,
        generic_types: Seq<UserTypeDeclaration>,
        var_parts: Seq<Seq<Seq<UserTypeDeclaration>>>,
        ret_added: Seq<UserTypeDeclaration>,
    |
        #[trigger] pou_pre_processed_by(
            old_p,
            new_p,
            added,
            mid,
            generic_types,
            var_parts,
            ret_added,
        )
}

fn pre_process_pou(pou: &mut Pou, types: &mut Vec<UserTypeDeclaration>)
    ensures
        final(types)@.len() >= old(types)@.len(),
        final(types)@.subrange(0, old(types)@.len() as int) == old(types)@,
        pou_pre_processed(*old(pou), *final(pou), appended(final(types)@, old(types)@.len() as int)),
{
    let ghost old_types = types@;
    //Find all generic types in that pou
    let mut generic_types = preprocess_generic_structs(pou);
    let ghost mid = *pou;
    let ghost gen = generic_types@;
    types.append(&mut generic_types);
    let ghost after_generics = types@;
    let var_parts = generate_blocks_types(pou.name.as_str(), &mut pou.variable_blocks, types);
    let ghost after_vars = types@;
    //Generate implicit type for returns
    preprocess_return_type(&pou.name, &mut pou.return_type, types);
    proof {
        let ret_added = appended(types@, after_vars.len() as int);
        assert(types@ =~= old_types + gen + joined2(var_parts@) + ret_added);
        assert(appended(types@, old_types.len() as int) =~= gen + joined2(var_parts@) + ret_added);
        assert(types@.subrange(0, old_types.len() as int) =~= old_types);
        assert(generic_structs_processed(*old(pou), mid, gen));
        assert(blocks_types_generated(mid.name@, mid.variable_blocks@, pou.variable_blocks@, var_parts@));
        assert(return_type_generated(mid.name@, mid.return_type, pou.return_type, ret_added));
        assert(pou_pre_processed_by(
            *old(pou),
            *pou,
            appended(types@, old_types.len() as int),
            mid,
            gen,
            var_parts@,
            ret_added,
        ));
    }
}

// ---------------------------------------------------------------------------
// Enumerations
// ---------------------------------------------------------------------------
/// `id_after` adds up.
pub proof fn lemma_id_after_add(start: usize, a: int, b: int)
    requires
        a >= 0,
        b >= 0,
    ensures
        id_after(id_after(start, a), b) == id_after(start, a + b),
{
    reveal(id_after);
    let m = usize::MAX as int + 1;
    vstd::arithmetic::div_mod::lemma_add_mod_noop(start as int + a, b, m);
    vstd::arithmetic::div_mod::lemma_mod_twice(b, m);
    vstd::arithmetic::div_mod::lemma_small_mod(b as nat % m as nat, m as nat);
    vstd::arithmetic::div_mod::lemma_mod_bound(start as int + a, m);
    vstd::arithmetic::div_mod::lemma_small_mod(((start as int + a) % m) as nat, m as nat);
    vstd::arithmetic::div_mod::lemma_add_mod_noop((start as int + a) % m, b, m);
}

/// No id after an id is the id itself.
pub proof fn lemma_id_after_zero(start: usize)
    ensures
        id_after(start, 0) == start,
{
    reveal(id_after);
    vstd::arithmetic::div_mod::lemma_small_mod(start as nat, (usize::MAX as int + 1) as nat);
}

/// The location of an element of an enumeration: a name's, an assignment's,
/// else none.
pub open spec fn enum_entry_location(it: AstStatement) -> SourceRange {
    match it {
        AstStatement::Reference { location, .. } => location,
        AstStatement::Assignment { .. } => it.location_of(),
        _ => SourceRange::undefined_range(),
    }
}

/// Whether `name` is the name of an element of an enumeration: the name
/// referred to, or assigned to, else `<undefined>`.
pub open spec fn enum_entry_name(it: AstStatement, name: String) -> bool {
    match it {
        AstStatement::Reference { name: n, .. } => name == n,
        AstStatement::Assignment { left, .. } => match *left {
            AstStatement::Reference { name: n, .. } => name == n,
            _ => name@ == "<undefined>"@,
        },
        _ => name@ == "<undefined>"@,
    }
}

/// The value of an element given without one: 0 for the first element, else
/// the previous element cast to the enumeration plus 1, with ids counted
/// from `id`.
pub open spec fn generated_enum_value(
    prev: Option<String>,
    enum_name: String,
    location: SourceRange,
    id: usize,
) -> AstStatement {
    match prev {
        Some(p) => AstStatement::BinaryExpression {
            id,
            operator: Operator::Plus,
            left: Box::new(
                AstStatement::CastStatement {
                    target: Box::new(
                        AstStatement::Reference { id: id_after(id, 1), location, name: p },
                    ),
                    id: id_after(id, 2),
                    location,
                    type_identifier: enum_name,
                },
            ),
            right: Box::new(AstStatement::LiteralInteger { value: 1, location, id: id_after(id, 3) }),
        },
        None => AstStatement::LiteralInteger { value: 0, location, id },
    }
}

/// The number of ids that the value of an element takes.
pub open spec fn enum_value_ids(it: AstStatement, has_prev: bool) -> int {
    if it is Assignment {
        0
    } else if has_prev {
        4
    } else {
        1
    }
}

/// The name that an element assigns to.
pub open spec fn assigned_name(out: AstStatement) -> String {
    match out {
        AstStatement::Assignment { left, .. } => match *left {
            AstStatement::Reference { name, .. } => name,
            _ => arbitrary(),
        },
        _ => arbitrary(),
    }
}

/// What an element of an enumeration becomes: an assignment of its value to
/// its name, the value being the one given or the generated one (see
/// `generated_enum_value`), with the ids counted from `id`.
#[verifier::opaque]
pub open spec fn enum_element_rewritten(
    it: AstStatement,
    prev: Option<String>,
    enum_name: String,
    id: usize,
    out: AstStatement,
) -> bool {
    let n = enum_value_ids(it, prev is Some);
    match out {
        AstStatement::Assignment { id: a_id, left, right } => match *left {
            AstStatement::Reference { name, location, id: b_id } => {
                &&& a_id == id_after(id, n)
                &&& b_id == id_after(id, n + 1)
                &&& location == enum_entry_location(it)
                &&& enum_entry_name(it, name)
                &&& match it {
                    AstStatement::Assignment { right: value, .. } => (*right).same_as(*value),
                    _ => *right == generated_enum_value(prev, enum_name, location, id),
                }
            },
            _ => false,
        },
        _ => false,
    }
}

/// The number of ids that the first `k` elements take.
pub open spec fn enum_offset(items: Seq<AstStatement>, k: int) -> int
    decreases k,
{
    if k <= 0 {
        0
    } else {
        enum_offset(items, k - 1) + enum_value_ids(items[k - 1], k - 1 > 0) + 2
    }
}

/// The ids that elements take are never negative in number.
pub proof fn lemma_enum_offset_nonneg(items: Seq<AstStatement>, k: int)
    ensures
        enum_offset(items, k) >= 0,
    decreases k,
{
    if k > 0 {
        lemma_enum_offset_nonneg(items, k - 1);
    }
}

/// Each element rewritten, the previous element's name at hand.
pub open spec fn enum_outputs(
    items: Seq<AstStatement>,
    enum_name: String,
    id0: usize,
    outs: Seq<AstStatement>,
) -> bool {
    &&& outs.len() == items.len()
    &&& forall|k: int|
        0 <= k < items.len() ==> enum_element_rewritten(
            items[k],
            if k == 0 {
                None
            } else {
                Some(assigned_name(outs[k - 1]))
            },
            enum_name,
            id_after(id0, enum_offset(items, k)),
            #[trigger] outs[k],
        )
}

/// What giving each element of an enumeration its value makes of the
/// elements: the flattened list of elements becomes a list of assignments
/// (see `enum_element_rewritten`), with the ids counted from `id0` and the
/// list's own id last; an enumeration without elements stays as it is.
pub open spec fn enum_elements_rewritten(
    enum_name: String,
    old_e: AstStatement,
    new_e: AstStatement,
    id0: usize,
    id1: usize,
) -> bool {
    let items = flattened(old_e);
    if items.len() == 0 {
        new_e == old_e && id1 == id0
    } else {
        match new_e {
            AstStatement::ExpressionList { expressions, id } => {
                &&& enum_outputs(items, enum_name, id0, expressions@)
                &&& id == id_after(id0, enum_offset(items, items.len() as int))
                &&& id1 == id_after(id0, enum_offset(items, items.len() as int) + 1)
            },
            _ => false,
        }
    }
}

fn rewrite_enum_element(
    it: &AstStatement,
    last_name: &Option<String>,
    enum_name: &String,
    ids: &mut IdProvider,
) -> (r: AstStatement)
    ensures
        enum_element_rewritten(*it, *last_name, *enum_name, old(ids).current(), r),
        assigns_to_name(r),
        final(ids).current() == id_after(
            old(ids).current(),
            enum_value_ids(*it, last_name is Some) + 2,
        ),
{
    proof {
        reveal_strlit("<undefined>");
        reveal(enum_element_rewritten);
    }
    let id0 = ids.peek();
    let (name, v, location) = match it {
        AstStatement::Reference { name, location, .. } => (name.clone(), None, *location),
        AstStatement::Assignment { left, right, .. } => {
            let name = if let AstStatement::Reference { name, .. } = &**left {
                name.clone()
            } else {
                String::from_str("<undefined>")
            };
            (name, Some(right.deep_clone()), it.get_location())
        },
        _ => (String::from_str("<undefined>"), None, SourceRange::undefined()),
    };
    let enum_literal = match v {
        Some(v) => v,
        None => match last_name {
            Some(last_element) => {
                // generate a `enum#last + 1` statement
                let binary_id = ids.next_id();
                let reference_id = ids.next_id();
                let cast_id = ids.next_id();
                let literal_id = ids.next_id();
                proof {
                    lemma_id_after_add(id0, 1, 1);
                    lemma_id_after_add(id0, 2, 1);
                }
                AstStatement::BinaryExpression {
                    id: binary_id,
                    operator: Operator::Plus,
                    left: Box::new(
                        AstStatement::CastStatement {
                            target: Box::new(
                                AstStatement::Reference {
                                    id: reference_id,
                                    location,
                                    name: last_element.clone(),
                                },
                            ),
                            id: cast_id,
                            location,
                            type_identifier: enum_name.clone(),
                        },
                    ),
                    right: Box::new(
                        AstStatement::LiteralInteger { value: 1, location, id: literal_id },
                    ),
                }
            },
            None => AstStatement::LiteralInteger { value: 0, location, id: ids.next_id() },
        },
    };
    let ghost mid = ids.current();
    let assignment_id = ids.next_id();
    let reference_id = ids.next_id();
    proof {
        let n = enum_value_ids(*it, last_name is Some);
        if n == 4 {
            lemma_id_after_add(id0, 3, 1);
        }
        lemma_id_after_add(id0, n, 1);
        lemma_id_after_add(id0, n + 1, 1);
        lemma_id_after_add(id0, 0, 1);
        lemma_id_after_zero(id0);
    }
    AstStatement::Assignment {
        id: assignment_id,
        left: Box::new(AstStatement::Reference { id: reference_id, name, location }),
        right: Box::new(enum_literal),
    }
}

/// Rewriting one more element extends the rewritten prefix.
proof fn lemma_outputs_extend(
    items: Seq<AstStatement>,
    enum_name: String,
    id0: usize,
    prev: Seq<AstStatement>,
    elements: Seq<AstStatement>,
    k: int,
)
    requires
        0 <= k < items.len(),
        prev.len() == k,
        elements == prev.push(elements.last()),
        forall|j: int|
            0 <= j < k ==> enum_element_rewritten(
                items[j],
                if j == 0 {
                    None
                } else {
                    Some(assigned_name(prev[j - 1]))
                },
                enum_name,
                id_after(id0, enum_offset(items, j)),
                #[trigger] prev[j],
            ),
        enum_element_rewritten(
            items[k],
            if k == 0 {
                None
            } else {
                Some(assigned_name(prev[k - 1]))
            },
            enum_name,
            id_after(id0, enum_offset(items, k)),
            elements[k],
        ),
    ensures
        forall|j: int|
            0 <= j < k + 1 ==> enum_element_rewritten(
                items[j],
                if j == 0 {
                    None
                } else {
                    Some(assigned_name(elements[j - 1]))
                },
                enum_name,
                id_after(id0, enum_offset(items, j)),
                #[trigger] elements[j],
            ),
{
    assert forall|j: int| 0 <= j < k + 1 implies enum_element_rewritten(
        items[j],
        if j == 0 {
            None
        } else {
            Some(assigned_name(elements[j - 1]))
        },
        enum_name,
        id_after(id0, enum_offset(items, j)),
        #[trigger] elements[j],
    ) by {
        if j < k {
            assert(prev[j] == elements[j]);
            if j > 0 {
                assert(prev[j - 1] == elements[j - 1]);
            }
        } else if k > 0 {
            assert(prev[k - 1] == elements[k - 1]);
        }
    }
}

fn rewrite_enum_items(flat: &Vec<&AstStatement>, enum_name: &String, ids: &mut IdProvider) -> (r:
    Vec<AstStatement>)
    ensures
        enum_outputs(deref_all(flat@), *enum_name, old(ids).current(), r@),
        final(ids).current() == id_after(
            old(ids).current(),
            enum_offset(deref_all(flat@), flat@.len() as int),
        ),
{
    let ghost id0 = ids.current();
    let ghost items = deref_all(flat@);
    proof {
        lemma_id_after_zero(id0);
    }
    let mut elements: Vec<AstStatement> = Vec::new();
    let mut last_name: Option<String> = None;
    let mut k: usize = 0;
    while k < flat.len()
        invariant
            k <= flat@.len(),
            items == deref_all(flat@),
            elements@.len() == k,
            ids.current() == id_after(id0, enum_offset(items, k as int)),
            k == 0 ==> last_name is None,
            k > 0 ==> last_name == Some(assigned_name(elements@[k - 1])),
            forall|j: int|
                0 <= j < k ==> enum_element_rewritten(
                    items[j],
                    if j == 0 {
                        None
                    } else {
                        Some(assigned_name(elements@[j - 1]))
                    },
                    *enum_name,
                    id_after(id0, enum_offset(items, j)),
                    #[trigger] elements@[j],
                ),
        decreases flat@.len() - k,
    {
        let it = flat[k];
        assert(*it == items[k as int]);
        let element = rewrite_enum_element(it, &last_name, enum_name, ids);
        proof {
            lemma_enum_offset_nonneg(items, k as int);
            lemma_id_after_add(
                id0,
                enum_offset(items, k as int),
                enum_value_ids(items[k as int], k > 0) + 2,
            );
        }
        last_name = Some(assigned_name_of(&element));
        let ghost prev = elements@;
        elements.push(element);
        proof {
            lemma_outputs_extend(items, *enum_name, id0, prev, elements@, k as int);
        }
        k = k + 1;
    }
    elements
}

fn rewrite_enum_elements(enum_name: &String, enum_elements: &mut AstStatement, ids: &mut IdProvider)
    ensures
        enum_elements_rewritten(
            *enum_name,
            *old(enum_elements),
            *final(enum_elements),
            old(ids).current(),
            final(ids).current(),
        ),
{
    let ghost id0 = ids.current();
    let ghost items = flattened(*enum_elements);
    let flat = flatten_expression_list(enum_elements);
    let elements = rewrite_enum_items(&flat, enum_name, ids);
    proof {
        lemma_id_after_zero(id0);
    }
    if elements.len() != 0 {
        let list_id = ids.next_id();
        proof {
            lemma_enum_offset_nonneg(items, items.len() as int);
            lemma_id_after_add(id0, enum_offset(items, items.len() as int), 1);
        }
        let expression = AstStatement::ExpressionList { expressions: elements, id: list_id };
        *enum_elements = expression;
    }
}

/// Whether the statement assigns to a name.
pub open spec fn assigns_to_name(s: AstStatement) -> bool {
    match s {
        AstStatement::Assignment { left, .. } => match *left {
            AstStatement::Reference { .. } => true,
            _ => false,
        },
        _ => false,
    }
}

/// The name that an element assigns to, as built by `rewrite_enum_element`.
fn assigned_name_of(element: &AstStatement) -> (r: String)
    requires
        assigns_to_name(*element),
    ensures
        r == assigned_name(*element),
{
    match element {
        AstStatement::Assignment { left, .. } => match &**left {
            AstStatement::Reference { name, .. } => name.clone(),
            _ => String::new(),
        },
        _ => String::new(),
    }
}


// ---------------------------------------------------------------------------
// Declared types
// ---------------------------------------------------------------------------
/// The text of a type's optional name, `undefined` where it has none.
fn container_text(name: &Option<String>) -> (r: &str)
    ensures
        r@ == container_name(*name),
{
    proof {
        reveal_strlit("undefined");
    }
    match name {
        Some(n) => n.as_str(),
        None => "undefined",
    }
}

/// The name field of a struct, enumeration, array or pointer type.
pub open spec fn own_name(dt: DataType) -> Option<String> {
    match dt {
        DataType::StructType { name, .. } => name,
        DataType::EnumType { name, .. } => name,
        DataType::ArrayType { name, .. } => name,
        DataType::PointerType { name, .. } => name,
        _ => None,
    }
}

/// What pulling the inner type out of an array or pointer type makes of it:
/// the type refers to `__name` (with no place in the source), and the last
/// of `added` declares the inner type under that name, at the inner
/// definition's location and in its scope, after the types nested in it,
/// which are named after the outer type (`name_`, ...).
pub open spec fn inner_type_extracted(
    old_dt: DataType,
    new_dt: DataType,
    added: Seq<UserTypeDeclaration>,
) -> bool {
    let inner = old_dt.inner_declaration();
    let container = container_name(own_name(old_dt));
    let s = inner_referenced_name(new_dt);
    &&& s@ == inner_type_name(container)
    &&& new_dt == old_dt.with_inner_declaration(
        DataTypeDeclaration::DataTypeReference {
            referenced_type: s,
            location: SourceRange::undefined_range(),
        },
    )
    &&& added.len() > 0
    &&& added.last() == implicit_declaration(
        added.last().data_type,
        inner.location_of(),
        defined_scope(inner),
    )
    &&& nested_types_generated(
        container,
        defined_type(inner).with_name(s),
        inner.location_of(),
        added.last().data_type,
        added.drop_last(),
    )
}

/// A struct type whose variables were given their implicit types, named
/// after the struct (`undefined` where it has no name).
pub open spec fn struct_types_generated(
    old_dt: DataType,
    new_dt: DataType,
    added: Seq<UserTypeDeclaration>,
) -> bool {
    match old_dt {
        DataType::StructType { name, variables } => match new_dt {
            DataType::StructType { name: n2, variables: v2 } => {
                &&& n2 == name
                &&& exists|parts: Seq<Seq<UserTypeDeclaration>>|
                    #[trigger] vars_types_generated(container_name(name), variables@, v2@, parts)
                        && added == joined(parts)
            },
            _ => false,
        },
        _ => false,
    }
}

/// What giving each element of an enumeration its value makes of it: an
/// enumeration without elements gets an empty list of them (with id `id0`);
/// the elements of a named enumeration become assignments (see
/// `enum_elements_rewritten`); an unnamed one with elements stays.
pub open spec fn enum_type_rewritten(old_dt: DataType, new_dt: DataType, id0: usize, id1: usize) -> bool {
    match old_dt {
        DataType::EnumType { name, elements } => if elements is EmptyStatement {
            &&& new_dt matches DataType::EnumType {
                name: n2,
                elements: AstStatement::ExpressionList { expressions, id },
            } && n2 == name && expressions@.len() == 0 && id == id0
            &&& id1 == id_after(id0, 1)
        } else {
            match name {
                Some(enum_name) => new_dt matches DataType::EnumType { name: n2, elements: e2 }
                    && n2 == name && enum_elements_rewritten(enum_name, elements, e2, id0, id1),
                None => new_dt == old_dt && id1 == id0,
            }
        },
        _ => false,
    }
}

/// What pre-processing makes of a declared type: the variables of a struct
/// get their implicit types; an array or pointer type whose inner type is
/// defined in place (and is not `...`) refers to it by name; the elements of
/// an enumeration get their values, with the ids from `id0` up to `id1`;
/// every other type stays. `added` holds the types declared on the way.
pub open spec fn data_type_rewritten(
    old_dt: DataType,
    new_dt: DataType,
    added: Seq<UserTypeDeclaration>,
    id0: usize,
    id1: usize,
) -> bool {
    match old_dt {
        DataType::StructType { .. } => struct_types_generated(old_dt, new_dt, added) && id1 == id0,
        DataType::EnumType { .. } => enum_type_rewritten(old_dt, new_dt, id0, id1) && added.len()
            == 0,
        DataType::ArrayType { referenced_type, .. } => id1 == id0 && if generates_implicit(
            *referenced_type,
        ) {
            inner_type_extracted(old_dt, new_dt, added)
        } else {
            new_dt == old_dt && added.len() == 0
        },
        DataType::PointerType { referenced_type, .. } => id1 == id0 && if generates_implicit(
            *referenced_type,
        ) {
            inner_type_extracted(old_dt, new_dt, added)
        } else {
            new_dt == old_dt && added.len() == 0
        },
        _ => new_dt == old_dt && added.len() == 0 && id1 == id0,
    }
}

/// A declaration whose type was pre-processed (see `data_type_rewritten`);
/// its initializer, location and scope stay.
pub open spec fn type_rewritten(
    old_t: UserTypeDeclaration,
    new_t: UserTypeDeclaration,
    added: Seq<UserTypeDeclaration>,
    id0: usize,
    id1: usize,
) -> bool {
    &&& new_t.initializer == old_t.initializer
    &&& new_t.location == old_t.location
    &&& new_t.scope == old_t.scope
    &&& data_type_rewritten(old_t.data_type, new_t.data_type, added, id0, id1)
}

fn process_struct_type(data_type: &mut DataType, new_types: &mut Vec<UserTypeDeclaration>)
    requires
        (*old(data_type)) is StructType,
    ensures
        final(new_types)@.len() >= old(new_types)@.len(),
        final(new_types)@.subrange(0, old(new_types)@.len() as int) == old(new_types)@,
        struct_types_generated(
            *old(data_type),
            *final(data_type),
            appended(final(new_types)@, old(new_types)@.len() as int),
        ),
{
    let ghost old_types = new_types@;
    let ghost old_dt = *data_type;
    let ghost mut var_parts: Seq<Seq<UserTypeDeclaration>> = seq![];
    match data_type {
        DataType::StructType { name, variables } => {
            let container = container_text(name);
            let parts = generate_vars_types(container, variables, new_types);
            proof {
                var_parts = parts@;
            }
        },
        _ => {},
    }
    proof {
        assert(appended(new_types@, old_types.len() as int) =~= joined(var_parts));
        assert(new_types@.subrange(0, old_types.len() as int) =~= old_types);
        assert(own_name(*data_type) == own_name(old_dt));
        assert(vars_types_generated(
            container_name(own_name(old_dt)),
            struct_variables(old_dt),
            struct_variables(*data_type),
            var_parts,
        ));
    }
}

/// The variables of a struct type.
pub open spec fn struct_variables(dt: DataType) -> Seq<Variable> {
    match dt {
        DataType::StructType { variables, .. } => variables@,
        _ => seq![],
    }
}

fn extract_inner_type(data_type: &mut DataType, new_types: &mut Vec<UserTypeDeclaration>)
    requires
        (*old(data_type)) is ArrayType || (*old(data_type)) is PointerType,
        generates_implicit(old(data_type).inner_declaration()),
    ensures
        final(new_types)@.len() >= old(new_types)@.len(),
        final(new_types)@.subrange(0, old(new_types)@.len() as int) == old(new_types)@,
        inner_type_extracted(
            *old(data_type),
            *final(data_type),
            appended(final(new_types)@, old(new_types)@.len() as int),
        ),
{
    proof {
        reveal_strlit("__");
    }
    let ghost old_types = new_types@;
    let ghost old_dt = *data_type;
    let container = match &*data_type {
        DataType::ArrayType { name, .. } => String::from_str(container_text(name)),
        DataType::PointerType { name, .. } => String::from_str(container_text(name)),
        _ => String::new(),
    };
    let inner_name = String::from_str("__").concat(container.as_str());
    let undefined = SourceRange::undefined();
    let replaced = data_type.replace_data_type_with_reference_to(inner_name.clone(), &undefined);
    if let Some(DataTypeDeclaration::DataTypeDefinition { data_type: mut inner, location, scope }) =
        replaced {
        inner.set_name(inner_name);
        add_nested_datatypes(container.as_str(), &mut inner, new_types, &location);
        let ghost mid_types = new_types@;
        new_types.push(
            UserTypeDeclaration { data_type: inner, initializer: None, location, scope },
        );
        proof {
            let added = appended(new_types@, old_types.len() as int);
            assert(added.drop_last() =~= appended(mid_types, old_types.len() as int));
            assert(new_types@.subrange(0, old_types.len() as int) =~= mid_types.subrange(
                0,
                old_types.len() as int,
            ));
        }
    }
}

fn process_enum_type(data_type: &mut DataType, ids: &mut IdProvider)
    requires
        (*old(data_type)) is EnumType,
    ensures
        enum_type_rewritten(*old(data_type), *final(data_type), old(ids).current(), final(ids).current()),
{
    match data_type {
        DataType::EnumType { name, elements } => {
            if let AstStatement::EmptyStatement { .. } = elements {
                //avoid empty statements, just use an empty expression list to make it easier to work with
                *elements = AstStatement::ExpressionList { expressions: Vec::new(), id: ids.next_id() };
            } else {
                match name {
                    Some(enum_name) => rewrite_enum_elements(enum_name, elements, ids),
                    None => {},
                }
            }
        },
        _ => {},
    }
}

fn pre_process_data_type(
    data_type: &mut DataType,
    new_types: &mut Vec<UserTypeDeclaration>,
    ids: &mut IdProvider,
)
    ensures
        final(new_types)@.len() >= old(new_types)@.len(),
        final(new_types)@.subrange(0, old(new_types)@.len() as int) == old(new_types)@,
        data_type_rewritten(
            *old(data_type),
            *final(data_type),
            appended(final(new_types)@, old(new_types)@.len() as int),
            old(ids).current(),
            final(ids).current(),
        ),
{
    let ghost old_types = new_types@;
    let kind: u8 = match &*data_type {
        DataType::StructType { .. } => 0,
        DataType::EnumType { .. } => 1,
        DataType::ArrayType { referenced_type, .. } => if should_generate_implicit(referenced_type) {
            2
        } else {
            3
        },
        DataType::PointerType { referenced_type, .. } => if should_generate_implicit(
            referenced_type,
        ) {
            2
        } else {
            3
        },
        _ => 3,
    };
    if kind == 0 {
        process_struct_type(data_type, new_types);
    } else if kind == 1 {
        process_enum_type(data_type, ids);
        proof {
            assert(appended(new_types@, old_types.len() as int) =~= Seq::<UserTypeDeclaration>::empty());
            assert(new_types@.subrange(0, old_types.len() as int) =~= old_types);
        }
    } else if kind == 2 {
        extract_inner_type(data_type, new_types);
    } else {
        proof {
            assert(appended(new_types@, old_types.len() as int) =~= Seq::<UserTypeDeclaration>::empty());
            assert(new_types@.subrange(0, old_types.len() as int) =~= old_types);
        }
    }
}

// ---------------------------------------------------------------------------
// Compilation units
// ---------------------------------------------------------------------------
/// The POUs pre-processed one by one, `parts[i]` being the types declared
/// for POU `i`.
pub open spec fn pous_pre_processed(
    old_ps: Seq<Pou>,
    new_ps: Seq<Pou>,
    parts: Seq<Seq<UserTypeDeclaration>>,
) -> bool {
    &&& new_ps.len() == old_ps.len()
    &&& parts.len() == old_ps.len()
    &&& forall|i: int|
        0 <= i < old_ps.len() ==> pou_pre_processed(old_ps[i], #[trigger] new_ps[i], parts[i])
}

/// The declared types pre-processed one by one, `parts[i]` being the types
/// declared on the way for type `i`, which takes the ids from `ids[i]` up to
/// `ids[i + 1]`.
pub open spec fn types_rewritten(
    old_ts: Seq<UserTypeDeclaration>,
    new_ts: Seq<UserTypeDeclaration>,
    parts: Seq<Seq<UserTypeDeclaration>>,
    ids: Seq<usize>,
) -> bool {
    &&& new_ts.len() == old_ts.len()
    &&& parts.len() == old_ts.len()
    &&& ids.len() == old_ts.len() + 1
    &&& forall|i: int|
        0 <= i < old_ts.len() ==> type_rewritten(
            old_ts[i],
            #[trigger] new_ts[i],
            parts[i],
            ids[i],
            ids[i + 1],
        )
}

/// What pre-processing makes of a unit, step by step: each POU is
/// pre-processed (see `pou_pre_processed`), adding its types; the global
/// variables get their implicit types, named after `global`; then each of the
/// types declared so far is pre-processed (see `type_rewritten`), the ids
/// running from `id0` to `id1`, and the types this declares come last. The
/// implementations stay.
pub open spec fn unit_pre_processed_by(
    old_u: CompilationUnit,
    new_u: CompilationUnit,
    id0: usize,
    id1: usize,
    pou_parts: Seq<Seq<UserTypeDeclaration>>,
    global_parts: Seq<Seq<Seq<UserTypeDeclaration>>>,
    type_parts: Seq<Seq<UserTypeDeclaration>>,
    ids: Seq<usize>,
) -> bool {
    let declared = old_u.types@ + joined(pou_parts) + joined2(global_parts);
    &&& pous_pre_processed(old_u.units@, new_u.units@, pou_parts)
    &&& blocks_types_generated("global"@, old_u.global_vars@, new_u.global_vars@, global_parts)
    &&& new_u.types@.len() >= declared.len()
    &&& types_rewritten(
        declared,
        new_u.types@.subrange(0, declared.len() as int),
        type_parts,
        ids,
    )
    &&& appended(new_u.types@, declared.len() as int) == joined(type_parts)
    &&& ids[0] == id0
    &&& ids.last() == id1
    &&& new_u.implementations == old_u.implementations
}

/// Whether `new_u` is what pre-processing makes of `old_u` with the ids from
/// `id0` up to `id1` (see `unit_pre_processed_by`).
pub open spec fn unit_pre_processed(
    old_u: CompilationUnit,
    new_u: CompilationUnit,
    id0: usize,
    id1: usize,
) -> bool {
    exists|
        pou_parts: Seq<Seq<UserTypeDeclaration>>,
        global_parts: Seq<Seq<Seq<UserTypeDeclaration>>>,
        type_parts: Seq<Seq<UserTypeDeclaration>>,
        ids: Seq<usize>,
    |
        #[trigger] unit_pre_processed_by(
            old_u,
            new_u,
            id0,
            id1,
            pou_parts,
            global_parts,
            type_parts,
            ids,
        )
}

/// Gives every type defined in place in `unit` a name and a declaration of
/// its own, resolves the generic parameters of its POUs and gives each
/// element of its enumerations a value; new ids come from `id_provider`.
pub fn pre_process(unit: &mut CompilationUnit, id_provider: &mut IdProvider)
    ensures
        unit_pre_processed(
            *old(unit),
            *final(unit),
            old(id_provider).current(),
            final(id_provider).current(),
        ),
{
    proof {
        reveal_strlit("global");
    }
    //process all local variables from POUs
    let ghost old_units = unit.units@;
    let ghost old_types = unit.types@;
    let ghost mut pou_parts: Seq<Seq<UserTypeDeclaration>> = seq![];
    let mut i: usize = 0;
    while i < unit.units.len()
        invariant
            i <= unit.units@.len(),
            unit.units@.len() == old_units.len(),
            old_units == old(unit).units@,
            old_types == old(unit).types@,
            pou_parts.len() == i,
            unit.types@ == old_types + joined(pou_parts),
            unit.global_vars == old(unit).global_vars,
            unit.implementations == old(unit).implementations,
            forall|k: int|
                0 <= k < i ==> pou_pre_processed(
                    old_units[k],
                    #[trigger] unit.units@[k],
                    pou_parts[k],
                ),
            forall|k: int| i <= k < old_units.len() ==> #[trigger] unit.units@[k] == old_units[k],
        decreases old_units.len() - i,
    {
        let ghost before = unit.types@;
        pre_process_pou(&mut unit.units[i], &mut unit.types);
        proof {
            let part = appended(unit.types@, before.len() as int);
            assert(unit.types@ =~= before + part);
            assert(pou_parts.push(part).drop_last() =~= pou_parts);
            pou_parts = pou_parts.push(part);
        }
        i = i + 1;
    }
    //process all variables from GVLs
    let global_parts = generate_blocks_types("global", &mut unit.global_vars, &mut unit.types);
    //process all variables in dataTypes
    let ghost declared = unit.types@;
    let ghost processed_units = unit.units;
    let ghost processed_globals = unit.global_vars;
    let ghost id0 = id_provider.current();
    let ghost mut type_parts: Seq<Seq<UserTypeDeclaration>> = seq![];
    let ghost mut ids: Seq<usize> = seq![id0];
    let mut new_types: Vec<UserTypeDeclaration> = Vec::new();
    let n = unit.types.len();
    let mut t: usize = 0;
    while t < n
        invariant
            t <= n,
            n == declared.len(),
            unit.types@.len() == n,
            type_parts.len() == t,
            ids.len() == t + 1,
            ids[0] == id0,
            ids.last() == id_provider.current(),
            new_types@ == joined(type_parts),
            unit.units == processed_units,
            unit.global_vars == processed_globals,
            unit.implementations == old(unit).implementations,
            forall|k: int|
                0 <= k < t ==> type_rewritten(
                    declared[k],
                    #[trigger] unit.types@[k],
                    type_parts[k],
                    ids[k],
                    ids[k + 1],
                ),
            forall|k: int| t <= k < n ==> #[trigger] unit.types@[k] == declared[k],
        decreases n - t,
    {
        let ghost before = new_types@;
        pre_process_data_type(&mut unit.types[t].data_type, &mut new_types, id_provider);
        proof {
            let part = appended(new_types@, before.len() as int);
            assert(new_types@ =~= before + part);
            assert(type_parts.push(part).drop_last() =~= type_parts);
            type_parts = type_parts.push(part);
            ids = ids.push(id_provider.current());
        }
        t = t + 1;
    }
    unit.types.append(&mut new_types);
    proof {
        assert(unit.types@.subrange(0, declared.len() as int) =~= declared.subrange(0, 0) + unit.types@.subrange(0, declared.len() as int));
        assert(appended(unit.types@, declared.len() as int) =~= joined(type_parts));
        assert(declared == old_types + joined(pou_parts) + joined2(global_parts@));
        assert(unit_pre_processed_by(
            *old(unit),
            *unit,
            id0,
            id_provider.current(),
            pou_parts,
            global_parts@,
            type_parts,
            ids,
        ));
    }
}

// ---------------------------------------------------------------------------
// What pre-processing leaves
// ---------------------------------------------------------------------------
/// Every variable of the blocks refers to its type by name, or is `...`.
pub open spec fn variable_types_named(blocks: Seq<VariableBlock>) -> bool {
    forall|b: int, v: int|
        0 <= b < blocks.len() && 0 <= v < blocks[b].variables@.len() ==> !generates_implicit(
            #[trigger] blocks[b].variables@[v].data_type,
        )
}

/// Giving the variables of blocks their implicit types leaves none defined
/// in place.
pub proof fn lemma_blocks_types_named(
    container: Seq<char>,
    old_bs: Seq<VariableBlock>,
    new_bs: Seq<VariableBlock>,
    parts: Seq<Seq<Seq<UserTypeDeclaration>>>,
)
    requires
        blocks_types_generated(container, old_bs, new_bs, parts),
    ensures
        variable_types_named(new_bs),
{
    assert forall|b: int, v: int|
        0 <= b < new_bs.len() && 0 <= v < new_bs[b].variables@.len() implies !generates_implicit(
        #[trigger] new_bs[b].variables@[v].data_type,
    ) by {
        assert(block_types_generated(container, old_bs[b], new_bs[b], parts[b]));
        assert(variable_type_generated(
            container,
            old_bs[b].variables@[v],
            new_bs[b].variables@[v],
            parts[b][v],
        ));
    }
}

/// After pre-processing, every variable of every POU and every global
/// variable refers to its type by name (or is `...`): no type is left
/// defined in place in a variable declaration.
pub proof fn lemma_pre_process_names_variable_types(
    old_u: CompilationUnit,
    new_u: CompilationUnit,
    id0: usize,
    id1: usize,
)
    requires
        unit_pre_processed(old_u, new_u, id0, id1),
    ensures
        forall|p: int|
            0 <= p < new_u.units@.len() ==> variable_types_named(
                #[trigger] new_u.units@[p].variable_blocks@,
            ),
        variable_types_named(new_u.global_vars@),
{
    let (pou_parts, global_parts, type_parts, ids) = choose|
        pou_parts: Seq<Seq<UserTypeDeclaration>>,
        global_parts: Seq<Seq<Seq<UserTypeDeclaration>>>,
        type_parts: Seq<Seq<UserTypeDeclaration>>,
        ids: Seq<usize>,
    |
        unit_pre_processed_by(
            old_u,
            new_u,
            id0,
            id1,
            pou_parts,
            global_parts,
            type_parts,
            ids,
        );
    lemma_blocks_types_named("global"@, old_u.global_vars@, new_u.global_vars@, global_parts);
    assert forall|p: int| 0 <= p < new_u.units@.len() implies variable_types_named(
        #[trigger] new_u.units@[p].variable_blocks@,
    ) by {
        let old_p = old_u.units@[p];
        let new_p = new_u.units@[p];
        assert(pou_pre_processed(old_p, new_p, pou_parts[p]));
        let (mid, generic_types, var_parts, ret_added) = choose|
            mid: Pou,
            generic_types: Seq<UserTypeDeclaration>,
            var_parts: Seq<Seq<Seq<UserTypeDeclaration>>>,
            ret_added: Seq<UserTypeDeclaration>,
        |
            pou_pre_processed_by(
                old_p,
                new_p,
                pou_parts[p],
                mid,
                generic_types,
                var_parts,
                ret_added,
            );
        lemma_blocks_types_named(
            mid.name@,
            mid.variable_blocks@,
            new_p.variable_blocks@,
            var_parts,
        );
    }
}

/// Whether some declaration of `types` declares a type named `name`.
pub open spec fn declares(types: Seq<UserTypeDeclaration>, name: Seq<char>) -> bool {
    exists|j: int| 0 <= j < types.len() && (#[trigger] types[j]).data_type.name_of() == Some(name)
}

/// Pulling nested definitions out of a type keeps its name.
proof fn lemma_nested_keeps_name(
    container: Seq<char>,
    old_dt: DataType,
    location: SourceRange,
    new_dt: DataType,
    added: Seq<UserTypeDeclaration>,
)
    requires
        nested_types_generated(container, old_dt, location, new_dt, added),
    ensures
        new_dt.name_of() == old_dt.name_of(),
{
}

/// A variable whose type was defined in place refers to its implicit type,
/// which the last of the types declared for it declares under that name.
proof fn lemma_variable_type_declared(
    container: Seq<char>,
    old_v: Variable,
    new_v: Variable,
    part: Seq<UserTypeDeclaration>,
)
    requires
        variable_type_generated(container, old_v, new_v, part),
        generates_implicit(old_v.data_type),
    ensures
        new_v.data_type is DataTypeReference,
        referenced_name(new_v.data_type)@ == implicit_type_name(container, old_v.name@),
        new_v.name == old_v.name,
        part.len() > 0,
        part.last().data_type.name_of() == Some(referenced_name(new_v.data_type)@),
{
    let d = old_v.data_type;
    let s = referenced_name(new_v.data_type);
    lemma_nested_keeps_name(
        s@,
        defined_type(d).with_name(s),
        d.location_of(),
        part.last().data_type,
        part.drop_last(),
    );
}

/// Where an element of one part stands in the parts joined.
proof fn lemma_joined_index(parts: Seq<Seq<UserTypeDeclaration>>, i: int, k: int) -> (j: int)
    requires
        0 <= i < parts.len(),
        0 <= k < parts[i].len(),
    ensures
        0 <= j < joined(parts).len(),
        joined(parts)[j] == parts[i][k],
    decreases parts.len(),
{
    let front = parts.drop_last();
    if i == parts.len() - 1 {
        joined(front).len() + k
    } else {
        let j = lemma_joined_index(front, i, k);
        j
    }
}

/// Where an element of one part of a group stands in the groups joined.
proof fn lemma_joined2_index(parts: Seq<Seq<Seq<UserTypeDeclaration>>>, i: int, b: int, k: int) -> (j:
    int)
    requires
        0 <= i < parts.len(),
        0 <= b < parts[i].len(),
        0 <= k < parts[i][b].len(),
    ensures
        0 <= j < joined2(parts).len(),
        joined2(parts)[j] == parts[i][b][k],
    decreases parts.len(),
{
    let front = parts.drop_last();
    if i == parts.len() - 1 {
        let jj = lemma_joined_index(parts[i], b, k);
        joined2(front).len() + jj
    } else {
        let j = lemma_joined2_index(front, i, b, k);
        j
    }
}

/// Pre-processing a declared type keeps its name.
proof fn lemma_rewritten_keeps_name(
    old_t: UserTypeDeclaration,
    new_t: UserTypeDeclaration,
    added: Seq<UserTypeDeclaration>,
    id0: usize,
    id1: usize,
)
    requires
        type_rewritten(old_t, new_t, added, id0, id1),
    ensures
        new_t.data_type.name_of() == old_t.data_type.name_of(),
{
}

/// Resolving generic parameters keeps definitions in place where they are.
proof fn lemma_generics_keep_definitions(
    pou: Seq<char>,
    generics: Seq<GenericBinding>,
    old_d: DataTypeDeclaration,
    new_d: DataTypeDeclaration,
)
    requires
        generics_replaced(pou, generics, old_d, new_d),
    ensures
        generates_implicit(new_d) == generates_implicit(old_d),
{
}

/// The type at position `j` of the declarations before the declared types
/// were pre-processed keeps its name in the unit after pre-processing.
proof fn lemma_declared_name_kept(
    old_u: CompilationUnit,
    new_u: CompilationUnit,
    id0: usize,
    id1: usize,
    pou_parts: Seq<Seq<UserTypeDeclaration>>,
    global_parts: Seq<Seq<Seq<UserTypeDeclaration>>>,
    type_parts: Seq<Seq<UserTypeDeclaration>>,
    ids: Seq<usize>,
    j: int,
)
    requires
        unit_pre_processed_by(old_u, new_u, id0, id1, pou_parts, global_parts, type_parts, ids),
        0 <= j < (old_u.types@ + joined(pou_parts) + joined2(global_parts)).len(),
    ensures
        new_u.types@[j].data_type.name_of() == (old_u.types@ + joined(pou_parts) + joined2(
            global_parts,
        ))[j].data_type.name_of(),
        declares(
            new_u.types@,
            new_u.types@[j].data_type.name_of().unwrap(),
        ) || new_u.types@[j].data_type.name_of() is None,
{
    let declared = old_u.types@ + joined(pou_parts) + joined2(global_parts);
    let rewritten = new_u.types@.subrange(0, declared.len() as int);
    assert(rewritten[j] == new_u.types@[j]);
    assert(type_rewritten(declared[j], rewritten[j], type_parts[j], ids[j], ids[j + 1]));
    lemma_rewritten_keeps_name(declared[j], rewritten[j], type_parts[j], ids[j], ids[j + 1]);
    if new_u.types@[j].data_type.name_of() is Some {
        assert(new_u.types@[j] == new_u.types@[j]);
    }
}

/// After pre-processing, a variable of a POU whose type was defined in place
/// (and is not `...`) refers to its implicit type `__pou_variable`, and the
/// unit declares a type of that name.
pub proof fn lemma_pre_process_declares_pou_variable_types(
    old_u: CompilationUnit,
    new_u: CompilationUnit,
    id0: usize,
    id1: usize,
    p: int,
    b: int,
    v: int,
)
    requires
        unit_pre_processed(old_u, new_u, id0, id1),
        0 <= p < old_u.units@.len(),
        0 <= b < old_u.units@[p].variable_blocks@.len(),
        0 <= v < old_u.units@[p].variable_blocks@[b].variables@.len(),
        generates_implicit(old_u.units@[p].variable_blocks@[b].variables@[v].data_type),
    ensures
        b < new_u.units@[p].variable_blocks@.len(),
        v < new_u.units@[p].variable_blocks@[b].variables@.len(),
        new_u.units@[p].variable_blocks@[b].variables@[v].data_type is DataTypeReference,
        referenced_name(new_u.units@[p].variable_blocks@[b].variables@[v].data_type)@
            == implicit_type_name(
            old_u.units@[p].name@,
            old_u.units@[p].variable_blocks@[b].variables@[v].name@,
        ),
        declares(
            new_u.types@,
            referenced_name(new_u.units@[p].variable_blocks@[b].variables@[v].data_type)@,
        ),
{
    let (pou_parts, global_parts, type_parts, ids) = choose|
        pou_parts: Seq<Seq<UserTypeDeclaration>>,
        global_parts: Seq<Seq<Seq<UserTypeDeclaration>>>,
        type_parts: Seq<Seq<UserTypeDeclaration>>,
        ids: Seq<usize>,
    |
        unit_pre_processed_by(
            old_u,
            new_u,
            id0,
            id1,
            pou_parts,
            global_parts,
            type_parts,
            ids,
        );
    let old_p = old_u.units@[p];
    let new_p = new_u.units@[p];
    assert(pou_pre_processed(old_p, new_p, pou_parts[p]));
    let (mid, generic_types, var_parts, ret_added) = choose|
        mid: Pou,
        generic_types: Seq<UserTypeDeclaration>,
        var_parts: Seq<Seq<Seq<UserTypeDeclaration>>>,
        ret_added: Seq<UserTypeDeclaration>,
    |
        pou_pre_processed_by(
            old_p,
            new_p,
            pou_parts[p],
            mid,
            generic_types,
            var_parts,
            ret_added,
        );
    let old_v = old_p.variable_blocks@[b].variables@[v];
    assert(block_generics_replaced(
        old_p.name@,
        old_p.generics@,
        old_p.variable_blocks@[b],
        mid.variable_blocks@[b],
    ));
    let mid_v = mid.variable_blocks@[b].variables@[v];
    assert(generic_var(old_p.name@, old_p.generics@, old_v, mid_v));
    lemma_generics_keep_definitions(old_p.name@, old_p.generics@, old_v.data_type, mid_v.data_type);
    assert(block_types_generated(
        mid.name@,
        mid.variable_blocks@[b],
        new_p.variable_blocks@[b],
        var_parts[b],
    ));
    let new_v = new_p.variable_blocks@[b].variables@[v];
    assert(variable_type_generated(mid.name@, mid_v, new_v, var_parts[b][v]));
    lemma_variable_type_declared(mid.name@, mid_v, new_v, var_parts[b][v]);
    let last = var_parts[b][v].len() - 1;
    let j2 = lemma_joined2_index(var_parts, b, v, last);
    assert(pou_parts[p][generic_types.len() + j2] == var_parts[b][v][last]);
    let j1 = lemma_joined_index(pou_parts, p, generic_types.len() + j2);
    let j = old_u.types@.len() + j1;
    let declared = old_u.types@ + joined(pou_parts) + joined2(global_parts);
    assert(declared[j] == var_parts[b][v][last]);
    lemma_declared_name_kept(
        old_u,
        new_u,
        id0,
        id1,
        pou_parts,
        global_parts,
        type_parts,
        ids,
        j,
    );
}

/// After pre-processing, a global variable whose type was defined in place
/// (and is not `...`) refers to its implicit type `__global_variable`, and
/// the unit declares a type of that name.
pub proof fn lemma_pre_process_declares_global_variable_types(
    old_u: CompilationUnit,
    new_u: CompilationUnit,
    id0: usize,
    id1: usize,
    b: int,
    v: int,
)
    requires
        unit_pre_processed(old_u, new_u, id0, id1),
        0 <= b < old_u.global_vars@.len(),
        0 <= v < old_u.global_vars@[b].variables@.len(),
        generates_implicit(old_u.global_vars@[b].variables@[v].data_type),
    ensures
        b < new_u.global_vars@.len(),
        v < new_u.global_vars@[b].variables@.len(),
        new_u.global_vars@[b].variables@[v].data_type is DataTypeReference,
        referenced_name(new_u.global_vars@[b].variables@[v].data_type)@ == implicit_type_name(
            "global"@,
            old_u.global_vars@[b].variables@[v].name@,
        ),
        declares(new_u.types@, referenced_name(new_u.global_vars@[b].variables@[v].data_type)@),
{
    let (pou_parts, global_parts, type_parts, ids) = choose|
        pou_parts: Seq<Seq<UserTypeDeclaration>>,
        global_parts: Seq<Seq<Seq<UserTypeDeclaration>>>,
        type_parts: Seq<Seq<UserTypeDeclaration>>,
        ids: Seq<usize>,
    |
        unit_pre_processed_by(
            old_u,
            new_u,
            id0,
            id1,
            pou_parts,
            global_parts,
            type_parts,
            ids,
        );
    assert(block_types_generated(
        "global"@,
        old_u.global_vars@[b],
        new_u.global_vars@[b],
        global_parts[b],
    ));
    let old_v = old_u.global_vars@[b].variables@[v];
    let new_v = new_u.global_vars@[b].variables@[v];
    assert(variable_type_generated("global"@, old_v, new_v, global_parts[b][v]));
    lemma_variable_type_declared("global"@, old_v, new_v, global_parts[b][v]);
    let last = global_parts[b][v].len() - 1;
    let j2 = lemma_joined2_index(global_parts, b, v, last);
    let j = old_u.types@.len() + joined(pou_parts).len() + j2;
    let declared = old_u.types@ + joined(pou_parts) + joined2(global_parts);
    assert(declared[j] == global_parts[b][v][last]);
    lemma_declared_name_kept(
        old_u,
        new_u,
        id0,
        id1,
        pou_parts,
        global_parts,
        type_parts,
        ids,
        j,
    );
}

/// After pre-processing, a POU whose return type was defined in place (and
/// is not `...`) returns its implicit type `__pou_return`, and the unit
/// declares a type of that name.
pub proof fn lemma_pre_process_declares_return_types(
    old_u: CompilationUnit,
    new_u: CompilationUnit,
    id0: usize,
    id1: usize,
    p: int,
)
    requires
        unit_pre_processed(old_u, new_u, id0, id1),
        0 <= p < old_u.units@.len(),
        old_u.units@[p].return_type matches Some(d) && generates_implicit(d),
    ensures
        new_u.units@[p].return_type matches Some(d) && d is DataTypeReference,
        referenced_name(new_u.units@[p].return_type.unwrap())@ == return_type_name(
            old_u.units@[p].name@,
        ),
        declares(new_u.types@, referenced_name(new_u.units@[p].return_type.unwrap())@),
{
    let (pou_parts, global_parts, type_parts, ids) = choose|
        pou_parts: Seq<Seq<UserTypeDeclaration>>,
        global_parts: Seq<Seq<Seq<UserTypeDeclaration>>>,
        type_parts: Seq<Seq<UserTypeDeclaration>>,
        ids: Seq<usize>,
    |
        unit_pre_processed_by(
            old_u,
            new_u,
            id0,
            id1,
            pou_parts,
            global_parts,
            type_parts,
            ids,
        );
    let old_p = old_u.units@[p];
    let new_p = new_u.units@[p];
    assert(pou_pre_processed(old_p, new_p, pou_parts[p]));
    let (mid, generic_types, var_parts, ret_added) = choose|
        mid: Pou,
        generic_types: Seq<UserTypeDeclaration>,
        var_parts: Seq<Seq<Seq<UserTypeDeclaration>>>,
        ret_added: Seq<UserTypeDeclaration>,
    |
        pou_pre_processed_by(
            old_p,
            new_p,
            pou_parts[p],
            mid,
            generic_types,
            var_parts,
            ret_added,
        );
    let d = old_p.return_type.unwrap();
    let mid_d = mid.return_type.unwrap();
    lemma_generics_keep_definitions(old_p.name@, old_p.generics@, d, mid_d);
    let s = referenced_name(new_p.return_type.unwrap());
    lemma_nested_keeps_name(
        mid.name@,
        defined_type(mid_d).with_name(s),
        mid_d.location_of(),
        ret_added.last().data_type,
        ret_added.drop_last(),
    );
    let k = generic_types.len() + joined2(var_parts).len() + ret_added.len() - 1;
    assert(pou_parts[p][k] == ret_added.last());
    let j1 = lemma_joined_index(pou_parts, p, k);
    let j = old_u.types@.len() + j1;
    let declared = old_u.types@ + joined(pou_parts) + joined2(global_parts);
    assert(declared[j] == ret_added.last());
    lemma_declared_name_kept(
        old_u,
        new_u,
        id0,
        id1,
        pou_parts,
        global_parts,
        type_parts,
        ids,
        j,
    );
}

/// Pre-processing removes no declared type: each type that the unit
/// declared before stands at the same position under the same name.
pub proof fn lemma_pre_process_keeps_declared_types(
    old_u: CompilationUnit,
    new_u: CompilationUnit,
    id0: usize,
    id1: usize,
    j: int,
)
    requires
        unit_pre_processed(old_u, new_u, id0, id1),
        0 <= j < old_u.types@.len(),
    ensures
        j < new_u.types@.len(),
        new_u.types@[j].data_type.name_of() == old_u.types@[j].data_type.name_of(),
{
    let (pou_parts, global_parts, type_parts, ids) = choose|
        pou_parts: Seq<Seq<UserTypeDeclaration>>,
        global_parts: Seq<Seq<Seq<UserTypeDeclaration>>>,
        type_parts: Seq<Seq<UserTypeDeclaration>>,
        ids: Seq<usize>,
    |
        unit_pre_processed_by(
            old_u,
            new_u,
            id0,
            id1,
            pou_parts,
            global_parts,
            type_parts,
            ids,
        );
    let declared = old_u.types@ + joined(pou_parts) + joined2(global_parts);
    assert(declared[j] == old_u.types@[j]);
    lemma_declared_name_kept(
        old_u,
        new_u,
        id0,
        id1,
        pou_parts,
        global_parts,
        type_parts,
        ids,
        j,
    );
}

/// After pre-processing, an array or pointer type that the unit declared
/// with its inner type defined in place (and not `...`) refers to the inner
/// type as `__name` (`__undefined` where it had no name), and the unit
/// declares a type of that name.
pub proof fn lemma_pre_process_declares_inner_types(
    old_u: CompilationUnit,
    new_u: CompilationUnit,
    id0: usize,
    id1: usize,
    j: int,
)
    requires
        unit_pre_processed(old_u, new_u, id0, id1),
        0 <= j < old_u.types@.len(),
        old_u.types@[j].data_type is ArrayType || old_u.types@[j].data_type is PointerType,
        generates_implicit(old_u.types@[j].data_type.inner_declaration()),
    ensures
        j < new_u.types@.len(),
        new_u.types@[j].data_type.inner_declaration() is DataTypeReference,
        inner_referenced_name(new_u.types@[j].data_type)@ == inner_type_name(
            container_name(own_name(old_u.types@[j].data_type)),
        ),
        declares(new_u.types@, inner_referenced_name(new_u.types@[j].data_type)@),
{
    let (pou_parts, global_parts, type_parts, ids) = choose|
        pou_parts: Seq<Seq<UserTypeDeclaration>>,
        global_parts: Seq<Seq<Seq<UserTypeDeclaration>>>,
        type_parts: Seq<Seq<UserTypeDeclaration>>,
        ids: Seq<usize>,
    |
        unit_pre_processed_by(
            old_u,
            new_u,
            id0,
            id1,
            pou_parts,
            global_parts,
            type_parts,
            ids,
        );
    let declared = old_u.types@ + joined(pou_parts) + joined2(global_parts);
    let rewritten = new_u.types@.subrange(0, declared.len() as int);
    let old_t = old_u.types@[j];
    assert(declared[j] == old_t);
    assert(rewritten[j] == new_u.types@[j]);
    assert(type_rewritten(declared[j], rewritten[j], type_parts[j], ids[j], ids[j + 1]));
    let new_dt = new_u.types@[j].data_type;
    let part = type_parts[j];
    let inner = old_t.data_type.inner_declaration();
    let sname = inner_referenced_name(new_dt);
    assert(inner_type_extracted(old_t.data_type, new_dt, part));
    lemma_nested_keeps_name(
        container_name(own_name(old_t.data_type)),
        defined_type(inner).with_name(sname),
        inner.location_of(),
        part.last().data_type,
        part.drop_last(),
    );
    let jj = lemma_joined_index(type_parts, j, part.len() - 1);
    let k = declared.len() + jj;
    assert(appended(new_u.types@, declared.len() as int)[jj] == new_u.types@[k]);
    assert(new_u.types@[k] == part.last());
}

/// After pre-processing, a member of a struct type that the unit declared,
/// whose type was defined in place (and is not `...`), refers to its implicit
/// type `__struct_member` (`__undefined_member` where the struct had no
/// name), and the unit declares a type of that name.
pub proof fn lemma_pre_process_declares_member_types(
    old_u: CompilationUnit,
    new_u: CompilationUnit,
    id0: usize,
    id1: usize,
    j: int,
    v: int,
)
    requires
        unit_pre_processed(old_u, new_u, id0, id1),
        0 <= j < old_u.types@.len(),
        old_u.types@[j].data_type is StructType,
        0 <= v < struct_variables(old_u.types@[j].data_type).len(),
        generates_implicit(struct_variables(old_u.types@[j].data_type)[v].data_type),
    ensures
        j < new_u.types@.len(),
        v < struct_variables(new_u.types@[j].data_type).len(),
        struct_variables(new_u.types@[j].data_type)[v].data_type is DataTypeReference,
        referenced_name(struct_variables(new_u.types@[j].data_type)[v].data_type)@
            == implicit_type_name(
            container_name(own_name(old_u.types@[j].data_type)),
            struct_variables(old_u.types@[j].data_type)[v].name@,
        ),
        declares(
            new_u.types@,
            referenced_name(struct_variables(new_u.types@[j].data_type)[v].data_type)@,
        ),
{
    let (pou_parts, global_parts, type_parts, ids) = choose|
        pou_parts: Seq<Seq<UserTypeDeclaration>>,
        global_parts: Seq<Seq<Seq<UserTypeDeclaration>>>,
        type_parts: Seq<Seq<UserTypeDeclaration>>,
        ids: Seq<usize>,
    |
        unit_pre_processed_by(
            old_u,
            new_u,
            id0,
            id1,
            pou_parts,
            global_parts,
            type_parts,
            ids,
        );
    let declared = old_u.types@ + joined(pou_parts) + joined2(global_parts);
    let rewritten = new_u.types@.subrange(0, declared.len() as int);
    let old_t = old_u.types@[j];
    assert(declared[j] == old_t);
    assert(rewritten[j] == new_u.types@[j]);
    assert(type_rewritten(declared[j], rewritten[j], type_parts[j], ids[j], ids[j + 1]));
    let new_dt = new_u.types@[j].data_type;
    assert(struct_types_generated(old_t.data_type, new_dt, type_parts[j]));
    let container = container_name(own_name(old_t.data_type));
    let parts = choose|parts: Seq<Seq<UserTypeDeclaration>>|
        vars_types_generated(
            container,
            struct_variables(old_t.data_type),
            struct_variables(new_dt),
            parts,
        ) && type_parts[j] == joined(parts);
    let old_v = struct_variables(old_t.data_type)[v];
    let new_v = struct_variables(new_dt)[v];
    assert(variable_type_generated(container, old_v, new_v, parts[v]));
    lemma_variable_type_declared(container, old_v, new_v, parts[v]);
    let jv = lemma_joined_index(parts, v, parts[v].len() - 1);
    let jj = lemma_joined_index(type_parts, j, jv);
    let k = declared.len() + jj;
    assert(appended(new_u.types@, declared.len() as int)[jj] == new_u.types@[k]);
    assert(new_u.types@[k] == parts[v].last());
}

} // verus!
