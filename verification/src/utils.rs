use vstd::prelude::*;

verus! {

/// Default helper: always `true`.
pub fn bool_true() -> (r: bool)
    ensures
        r == true,
{
    true
}

} // verus!
