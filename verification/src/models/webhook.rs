use vstd::prelude::*;

verus! {

/// A webhook subscription.
#[derive(Debug, Clone, PartialEq, Eq)]
pub struct Webhook {
    pub id: String,
    pub url: String,
    pub events: Option<Vec<String>>,
    pub is_active: Option<bool>,
    pub secret: String,
    pub created_at: String,
}

} // verus!
