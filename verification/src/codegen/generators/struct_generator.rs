use vstd::prelude::*;

use crate::codegen::generators::instance_struct_generator::instance_variable_name;

verus! {

/// returns the instance-name of a pou-struct
pub fn get_pou_instance_variable_name(pou_name: &str) -> (r: String)
    ensures
        r@ == instance_variable_name(pou_name@),
{
    String::from_str(pou_name).concat("_instance")
}

} // verus!
