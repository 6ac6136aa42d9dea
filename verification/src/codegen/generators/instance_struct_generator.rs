use vstd::prelude::*;

verus! {

/// The name of the variable that holds the instance of a POU: its name
/// followed by `_instance`.
pub open spec fn instance_variable_name(pou_name: Seq<char>) -> Seq<char> {
    pou_name + "_instance"@
}

/// The instance variable of a POU is named as the POU, then `_instance`.
pub proof fn lemma_instance_variable_name(pou_name: Seq<char>)
    ensures
        instance_variable_name(pou_name) == pou_name + seq!['_', 'i', 'n', 's', 't', 'a', 'n', 'c', 'e'],
{
    reveal_strlit("_instance");
    assert(instance_variable_name(pou_name) =~= pou_name + seq!['_', 'i', 'n', 's', 't', 'a', 'n', 'c', 'e']);
}

/// returns the instance-name of a pou-struct
pub fn get_pou_instance_variable_name(pou_name: &str) -> (r: String)
    ensures
        r@ == instance_variable_name(pou_name@),
{
    String::from_str(pou_name).concat("_instance")
}

} // verus!
