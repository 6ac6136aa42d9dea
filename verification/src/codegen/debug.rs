use vstd::prelude::*;
use vstd::std_specs::cmp::PartialEqSpec;

verus! {

/// Identifies a variable for its debug information: its name and the name of
/// the POU or struct that declares it.
#[derive(Debug, Clone, Hash)]
pub struct VariableKey {
    name: String,
    parent: Option<String>,
}

impl VariableKey {
    /// The name of the variable.
    pub closed spec fn name_of(self) -> Seq<char> {
        self.name@
    }

    /// The name of the declaring POU or struct, where there is one.
    pub closed spec fn parent_of(self) -> Option<Seq<char>> {
        match self.parent {
            Some(p) => Some(p@),
            None => None,
        }
    }

    pub fn new(name: &str, parent: Option<&str>) -> (r: Self)
        ensures
            r.name_of() == name@,
            r.parent_of() == match parent {
                Some(p) => Some(p@),
                None => None::<Seq<char>>,
            },
    {
        let parent = match parent {
            Some(p) => Some(String::from_str(p)),
            None => None,
        };
        Self { name: String::from_str(name), parent }
    }
}

/// Whether two optional names are both absent or both present and equal.
fn same_parent(a: &Option<String>, b: &Option<String>) -> (r: bool)
    ensures
        r == (match a {
            Some(x) => Some(x@),
            None => None::<Seq<char>>,
        } == match b {
            Some(y) => Some(y@),
            None => None::<Seq<char>>,
        }),
{
    match (a, b) {
        (Some(x), Some(y)) => *x == *y,
        (None, None) => true,
        _ => false,
    }
}

impl PartialEq for VariableKey {
    fn eq(&self, other: &Self) -> (r: bool) {
        self.name == other.name && same_parent(&self.parent, &other.parent)
    }
}

impl Eq for VariableKey {
}

impl vstd::std_specs::cmp::PartialEqSpecImpl for VariableKey {
    open spec fn obeys_eq_spec() -> bool {
        true
    }

    open spec fn eq_spec(&self, other: &Self) -> bool {
        self.name_of() == other.name_of() && self.parent_of() == other.parent_of()
    }
}

/// Two keys are equal exactly where their names and their parents are: one
/// name under different parents, or with and without a parent, gives
/// different keys.
pub proof fn lemma_key_equality(a: &str, p: Option<&str>, b: &str, q: Option<&str>, x: VariableKey, y: VariableKey)
    requires
        x.name_of() == a@,
        x.parent_of() == match p {
            Some(t) => Some(t@),
            None => None::<Seq<char>>,
        },
        y.name_of() == b@,
        y.parent_of() == match q {
            Some(t) => Some(t@),
            None => None::<Seq<char>>,
        },
    ensures
        x.eq_spec(&y) <==> (a@ == b@ && match (p, q) {
            (Some(s), Some(t)) => s@ == t@,
            (None, None) => true,
            _ => false,
        }),
{
}

} // verus!
