use vstd::prelude::*;

verus! {

/// A notification addressed to the account.
#[derive(Debug, Clone, PartialEq, Eq)]
pub struct Notification {
    pub id: String,
    pub title: String,
    pub message: String,
    pub is_read: bool,
    pub notification_type: String,
    pub created_at: String,
}

} // verus!
