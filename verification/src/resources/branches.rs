use crate::client::{Call, Method, Puxbay};
use crate::paths::{collection, collection_path, item, item_path, page_of, page_path};
use vstd::prelude::*;

verus! {

/// Calls on the branches of the business.
pub struct BranchesResource<'a> {
    pub client: &'a Puxbay,
}

impl<'a> BranchesResource<'a> {
    /// The resource as reached through `client`.
    pub fn new(client: &'a Puxbay) -> (resource: Self)
        ensures
            resource.client == client,
    {
        BranchesResource { client }
    }

    /// One page of branches: `GET branches/?page=N`.
    pub fn list(&self, page: i32) -> (call: Call)
        ensures
            call@ == self.client@.call(Method::Get, page_of("branches"@, page as int)),
    {
        self.client.request(Method::Get, page_path("branches", page).as_str())
    }

    /// One branch: `GET branches/{id}/`.
    pub fn get(&self, branch_id: &str) -> (call: Call)
        ensures
            call@ == self.client@.call(Method::Get, item("branches"@, branch_id@)),
    {
        self.client.request(Method::Get, item_path("branches", branch_id).as_str())
    }

    /// A new branch, sent as the body: `POST branches/`.
    pub fn create(&self) -> (call: Call)
        ensures
            call@ == self.client@.call(Method::Post, collection("branches"@)),
    {
        self.client.request(Method::Post, collection_path("branches").as_str())
    }

    /// Changes to a branch, sent as the body: `PATCH branches/{id}/`.
    pub fn update(&self, branch_id: &str) -> (call: Call)
        ensures
            call@ == self.client@.call(Method::Patch, item("branches"@, branch_id@)),
    {
        self.client.request(Method::Patch, item_path("branches", branch_id).as_str())
    }

    /// Removes a branch: `DELETE branches/{id}/`.
    pub fn delete(&self, branch_id: &str) -> (call: Call)
        ensures
            call@ == self.client@.call(Method::Delete, item("branches"@, branch_id@)),
    {
        self.client.request(Method::Delete, item_path("branches", branch_id).as_str())
    }
}

} // verus!
