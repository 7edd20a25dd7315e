use crate::client::{Call, Method, Puxbay};
use crate::paths::{
    collection, collection_path, item, item_path, operation, operation_path, sized_page_of,
    sized_page_path,
};
use vstd::prelude::*;

verus! {

/// Calls on the product catalogue.
pub struct ProductsResource<'a> {
    pub client: &'a Puxbay,
}

impl<'a> ProductsResource<'a> {
    /// The resource as reached through `client`.
    pub fn new(client: &'a Puxbay) -> (resource: Self)
        ensures
            resource.client == client,
    {
        ProductsResource { client }
    }

    /// One page of products: `GET products/?page=N&page_size=M`.
    pub fn list(&self, page: i32, page_size: i32) -> (call: Call)
        ensures
            call@ == self.client@.call(
                Method::Get,
                sized_page_of("products"@, page as int, page_size as int),
            ),
    {
        self.client.request(Method::Get, sized_page_path("products", page, page_size).as_str())
    }

    /// One product: `GET products/{id}/`.
    pub fn get(&self, product_id: &str) -> (call: Call)
        ensures
            call@ == self.client@.call(Method::Get, item("products"@, product_id@)),
    {
        self.client.request(Method::Get, item_path("products", product_id).as_str())
    }

    /// A new product, sent as the body: `POST products/`.
    pub fn create(&self) -> (call: Call)
        ensures
            call@ == self.client@.call(Method::Post, collection("products"@)),
    {
        self.client.request(Method::Post, collection_path("products").as_str())
    }

    /// Changes to a product, sent as the body: `PATCH products/{id}/`.
    pub fn update(&self, product_id: &str) -> (call: Call)
        ensures
            call@ == self.client@.call(Method::Patch, item("products"@, product_id@)),
    {
        self.client.request(Method::Patch, item_path("products", product_id).as_str())
    }

    /// Removes a product: `DELETE products/{id}/`.
    pub fn delete(&self, product_id: &str) -> (call: Call)
        ensures
            call@ == self.client@.call(Method::Delete, item("products"@, product_id@)),
    {
        self.client.request(Method::Delete, item_path("products", product_id).as_str())
    }

    /// A stock adjustment, with quantity and reason as the body:
    /// `POST products/{id}/stock-adjustment/`.
    pub fn adjust_stock(&self, product_id: &str) -> (call: Call)
        ensures
            call@ == self.client@.call(
                Method::Post,
                operation("products"@, product_id@, "stock-adjustment"@),
            ),
    {
        self.client.request(
            Method::Post,
            operation_path("products", product_id, "stock-adjustment").as_str(),
        )
    }
}

} // verus!
