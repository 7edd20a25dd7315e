use vstd::prelude::*;

verus! {

/// Default of a product's `is_active` flag: a product is active unless the
/// server says otherwise.
pub fn default_true() -> (active: bool)
    ensures
        active,
{
    true
}

} // verus!
