use crate::client::{Call, Method, Puxbay};
use crate::paths::{
    collection, collection_path, item, item_path, operation, operation_path, page_of, page_path,
};
use vstd::prelude::*;

verus! {

/// Calls on return requests.
pub struct ReturnsResource<'a> {
    pub client: &'a Puxbay,
}

impl<'a> ReturnsResource<'a> {
    /// The resource as reached through `client`.
    pub fn new(client: &'a Puxbay) -> (resource: Self)
        ensures
            resource.client == client,
    {
        ReturnsResource { client }
    }

    /// One page of return requests: `GET returns/?page=N`.
    pub fn list(&self, page: i32) -> (call: Call)
        ensures
            call@ == self.client@.call(Method::Get, page_of("returns"@, page as int)),
    {
        self.client.request(Method::Get, page_path("returns", page).as_str())
    }

    /// One return request: `GET returns/{id}/`.
    pub fn get(&self, return_id: &str) -> (call: Call)
        ensures
            call@ == self.client@.call(Method::Get, item("returns"@, return_id@)),
    {
        self.client.request(Method::Get, item_path("returns", return_id).as_str())
    }

    /// A new return request, sent as the body: `POST returns/`.
    pub fn create(&self) -> (call: Call)
        ensures
            call@ == self.client@.call(Method::Post, collection("returns"@)),
    {
        self.client.request(Method::Post, collection_path("returns").as_str())
    }

    /// Approves a return request: `POST returns/{id}/approve/`.
    pub fn approve(&self, return_id: &str) -> (call: Call)
        ensures
            call@ == self.client@.call(Method::Post, operation("returns"@, return_id@, "approve"@)),
    {
        self.client.request(Method::Post, operation_path("returns", return_id, "approve").as_str())
    }
}

} // verus!
