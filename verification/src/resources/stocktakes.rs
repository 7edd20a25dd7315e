use crate::client::{Call, Method, Puxbay};
use crate::paths::{
    collection, collection_path, item, item_path, operation, operation_path, page_of, page_path,
};
use vstd::prelude::*;

verus! {

/// Calls on stocktakes.
pub struct StocktakesResource<'a> {
    pub client: &'a Puxbay,
}

impl<'a> StocktakesResource<'a> {
    /// The resource as reached through `client`.
    pub fn new(client: &'a Puxbay) -> (resource: Self)
        ensures
            resource.client == client,
    {
        StocktakesResource { client }
    }

    /// One page of stocktakes: `GET stocktakes/?page=N`.
    pub fn list(&self, page: i32) -> (call: Call)
        ensures
            call@ == self.client@.call(Method::Get, page_of("stocktakes"@, page as int)),
    {
        self.client.request(Method::Get, page_path("stocktakes", page).as_str())
    }

    /// One stocktake: `GET stocktakes/{id}/`.
    pub fn get(&self, stocktake_id: &str) -> (call: Call)
        ensures
            call@ == self.client@.call(Method::Get, item("stocktakes"@, stocktake_id@)),
    {
        self.client.request(Method::Get, item_path("stocktakes", stocktake_id).as_str())
    }

    /// A new stocktake, sent as the body: `POST stocktakes/`.
    pub fn create(&self) -> (call: Call)
        ensures
            call@ == self.client@.call(Method::Post, collection("stocktakes"@)),
    {
        self.client.request(Method::Post, collection_path("stocktakes").as_str())
    }

    /// Completes a stocktake: `POST stocktakes/{id}/complete/`.
    pub fn complete(&self, stocktake_id: &str) -> (call: Call)
        ensures
            call@ == self.client@.call(
                Method::Post,
                operation("stocktakes"@, stocktake_id@, "complete"@),
            ),
    {
        self.client.request(
            Method::Post,
            operation_path("stocktakes", stocktake_id, "complete").as_str(),
        )
    }
}

} // verus!
