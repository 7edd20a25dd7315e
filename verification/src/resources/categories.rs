use crate::client::{Call, Method, Puxbay};
use crate::paths::{collection, collection_path, item, item_path, page_of, page_path};
use vstd::prelude::*;

verus! {

/// Calls on product categories.
pub struct CategoriesResource<'a> {
    pub client: &'a Puxbay,
}

impl<'a> CategoriesResource<'a> {
    /// The resource as reached through `client`.
    pub fn new(client: &'a Puxbay) -> (resource: Self)
        ensures
            resource.client == client,
    {
        CategoriesResource { client }
    }

    /// One page of categories: `GET categories/?page=N`.
    pub fn list(&self, page: i32) -> (call: Call)
        ensures
            call@ == self.client@.call(Method::Get, page_of("categories"@, page as int)),
    {
        self.client.request(Method::Get, page_path("categories", page).as_str())
    }

    /// One category: `GET categories/{id}/`.
    pub fn get(&self, category_id: &str) -> (call: Call)
        ensures
            call@ == self.client@.call(Method::Get, item("categories"@, category_id@)),
    {
        self.client.request(Method::Get, item_path("categories", category_id).as_str())
    }

    /// A new category, sent as the body: `POST categories/`.
    pub fn create(&self) -> (call: Call)
        ensures
            call@ == self.client@.call(Method::Post, collection("categories"@)),
    {
        self.client.request(Method::Post, collection_path("categories").as_str())
    }

    /// Changes to a category, sent as the body: `PATCH categories/{id}/`.
    pub fn update(&self, category_id: &str) -> (call: Call)
        ensures
            call@ == self.client@.call(Method::Patch, item("categories"@, category_id@)),
    {
        self.client.request(Method::Patch, item_path("categories", category_id).as_str())
    }

    /// Removes a category: `DELETE categories/{id}/`.
    pub fn delete(&self, category_id: &str) -> (call: Call)
        ensures
            call@ == self.client@.call(Method::Delete, item("categories"@, category_id@)),
    {
        self.client.request(Method::Delete, item_path("categories", category_id).as_str())
    }
}

} // verus!
