use vstd::prelude::*;
use vstd::string::StringExecFns;

verus! {

/// Whether an owned string holds exactly the characters of `literal`.
pub(crate) fn text_is(value: &String, literal: &str) -> (same: bool)
    ensures
        same == (value@ == literal@),
{
    let owned = String::from_str(literal);
    *value == owned
}

} // verus!
