use vstd::prelude::*;

verus! {

/// A product category.
#[derive(Debug, Clone, PartialEq, Eq)]
pub struct Category {
    pub id: String,
    pub name: String,
    pub description: Option<String>,
}

} // verus!
