use crate::client::{Call, Method, Puxbay};
use crate::paths::{collection, collection_path, item, item_path, sized_page_of, sized_page_path};
use vstd::prelude::*;

verus! {

/// Calls on suppliers.
pub struct SuppliersResource<'a> {
    pub client: &'a Puxbay,
}

impl<'a> SuppliersResource<'a> {
    /// The resource as reached through `client`.
    pub fn new(client: &'a Puxbay) -> (resource: Self)
        ensures
            resource.client == client,
    {
        SuppliersResource { client }
    }

    /// One page of suppliers: `GET suppliers/?page=N&page_size=M`.
    pub fn list(&self, page: i32, page_size: i32) -> (call: Call)
        ensures
            call@ == self.client@.call(
                Method::Get,
                sized_page_of("suppliers"@, page as int, page_size as int),
            ),
    {
        self.client.request(Method::Get, sized_page_path("suppliers", page, page_size).as_str())
    }

    /// One supplier: `GET suppliers/{id}/`.
    pub fn get(&self, supplier_id: &str) -> (call: Call)
        ensures
            call@ == self.client@.call(Method::Get, item("suppliers"@, supplier_id@)),
    {
        self.client.request(Method::Get, item_path("suppliers", supplier_id).as_str())
    }

    /// A new supplier, sent as the body: `POST suppliers/`.
    pub fn create(&self) -> (call: Call)
        ensures
            call@ == self.client@.call(Method::Post, collection("suppliers"@)),
    {
        self.client.request(Method::Post, collection_path("suppliers").as_str())
    }

    /// Changes to a supplier, sent as the body: `PATCH suppliers/{id}/`.
    pub fn update(&self, supplier_id: &str) -> (call: Call)
        ensures
            call@ == self.client@.call(Method::Patch, item("suppliers"@, supplier_id@)),
    {
        self.client.request(Method::Patch, item_path("suppliers", supplier_id).as_str())
    }

    /// Removes a supplier: `DELETE suppliers/{id}/`.
    pub fn delete(&self, supplier_id: &str) -> (call: Call)
        ensures
            call@ == self.client@.call(Method::Delete, item("suppliers"@, supplier_id@)),
    {
        self.client.request(Method::Delete, item_path("suppliers", supplier_id).as_str())
    }
}

} // verus!
