use vstd::prelude::*;

verus! {

/// List the standard configuration directories. ToyOS has no standard
/// directory layout, so the list is empty whatever the environment holds.
pub fn conf_dirs() -> (r: Vec<String>)
    ensures
        r@ == Seq::<String>::empty(),
{
    Vec::new()
}

/// List the standard data directories. ToyOS has no standard directory
/// layout, so the list is empty whatever the environment holds.
pub fn data_dirs() -> (r: Vec<String>)
    ensures
        r@ == Seq::<String>::empty(),
{
    Vec::new()
}

} // verus!
