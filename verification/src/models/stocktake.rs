use vstd::prelude::*;

verus! {

/// A stock count session at a branch.
#[derive(Debug, Clone, PartialEq, Eq)]
pub struct Stocktake {
    pub id: String,
    pub branch: String,
    pub status: String,
    pub notes: Option<String>,
    pub created_at: String,
    pub updated_at: String,
}

} // verus!
