use crate::client::{Call, Method, Puxbay};
use crate::paths::{
    collection, collection_path, item, item_path, operation, operation_path, page_of, page_path,
};
use vstd::prelude::*;

verus! {

/// Calls on cash drawer sessions.
pub struct CashDrawersResource<'a> {
    pub client: &'a Puxbay,
}

impl<'a> CashDrawersResource<'a> {
    /// The resource as reached through `client`.
    pub fn new(client: &'a Puxbay) -> (resource: Self)
        ensures
            resource.client == client,
    {
        CashDrawersResource { client }
    }

    /// One page of cash drawer sessions: `GET cash-drawers/?page=N`.
    pub fn list(&self, page: i32) -> (call: Call)
        ensures
            call@ == self.client@.call(Method::Get, page_of("cash-drawers"@, page as int)),
    {
        self.client.request(Method::Get, page_path("cash-drawers", page).as_str())
    }

    /// One session: `GET cash-drawers/{id}/`.
    pub fn get(&self, drawer_id: &str) -> (call: Call)
        ensures
            call@ == self.client@.call(Method::Get, item("cash-drawers"@, drawer_id@)),
    {
        self.client.request(Method::Get, item_path("cash-drawers", drawer_id).as_str())
    }

    /// Opens a session, described by the body: `POST cash-drawers/`.
    pub fn open(&self) -> (call: Call)
        ensures
            call@ == self.client@.call(Method::Post, collection("cash-drawers"@)),
    {
        self.client.request(Method::Post, collection_path("cash-drawers").as_str())
    }

    /// Closes a session, with the counted cash as the body:
    /// `POST cash-drawers/{id}/close/`.
    pub fn close(&self, drawer_id: &str) -> (call: Call)
        ensures
            call@ == self.client@.call(
                Method::Post,
                operation("cash-drawers"@, drawer_id@, "close"@),
            ),
    {
        self.client.request(
            Method::Post,
            operation_path("cash-drawers", drawer_id, "close").as_str(),
        )
    }
}

} // verus!
