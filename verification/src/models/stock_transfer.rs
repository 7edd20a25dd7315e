use vstd::prelude::*;

verus! {

/// A transfer of stock between two branches. The items are kept as raw JSON.
#[derive(Debug, Clone, PartialEq, Eq)]
pub struct StockTransfer {
    pub id: String,
    pub source_branch: String,
    pub source_branch_name: Option<String>,
    pub destination_branch: String,
    pub destination_branch_name: Option<String>,
    pub status: String,
    pub items: Option<Vec<serde_json::Value>>,
    pub notes: Option<String>,
    pub created_at: String,
    pub updated_at: String,
}

} // verus!
