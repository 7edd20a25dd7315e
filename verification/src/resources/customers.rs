use crate::client::{Call, Method, Puxbay};
use crate::paths::{
    collection, collection_path, item, item_path, operation, operation_path, sized_page_of,
    sized_page_path,
};
use vstd::prelude::*;

verus! {

/// Calls on customers.
pub struct CustomersResource<'a> {
    pub client: &'a Puxbay,
}

impl<'a> CustomersResource<'a> {
    /// The resource as reached through `client`.
    pub fn new(client: &'a Puxbay) -> (resource: Self)
        ensures
            resource.client == client,
    {
        CustomersResource { client }
    }

    /// One page of customers: `GET customers/?page=N&page_size=M`.
    pub fn list(&self, page: i32, page_size: i32) -> (call: Call)
        ensures
            call@ == self.client@.call(
                Method::Get,
                sized_page_of("customers"@, page as int, page_size as int),
            ),
    {
        self.client.request(Method::Get, sized_page_path("customers", page, page_size).as_str())
    }

    /// One customer: `GET customers/{id}/`.
    pub fn get(&self, customer_id: &str) -> (call: Call)
        ensures
            call@ == self.client@.call(Method::Get, item("customers"@, customer_id@)),
    {
        self.client.request(Method::Get, item_path("customers", customer_id).as_str())
    }

    /// A new customer, sent as the body: `POST customers/`.
    pub fn create(&self) -> (call: Call)
        ensures
            call@ == self.client@.call(Method::Post, collection("customers"@)),
    {
        self.client.request(Method::Post, collection_path("customers").as_str())
    }

    /// Changes to a customer, sent as the body: `PATCH customers/{id}/`.
    pub fn update(&self, customer_id: &str) -> (call: Call)
        ensures
            call@ == self.client@.call(Method::Patch, item("customers"@, customer_id@)),
    {
        self.client.request(Method::Patch, item_path("customers", customer_id).as_str())
    }

    /// Removes a customer: `DELETE customers/{id}/`.
    pub fn delete(&self, customer_id: &str) -> (call: Call)
        ensures
            call@ == self.client@.call(Method::Delete, item("customers"@, customer_id@)),
    {
        self.client.request(Method::Delete, item_path("customers", customer_id).as_str())
    }

    /// A change of loyalty points, with points and description as the body:
    /// `POST customers/{id}/adjust-loyalty-points/`.
    pub fn adjust_loyalty_points(&self, customer_id: &str) -> (call: Call)
        ensures
            call@ == self.client@.call(
                Method::Post,
                operation("customers"@, customer_id@, "adjust-loyalty-points"@),
            ),
    {
        self.client.request(
            Method::Post,
            operation_path("customers", customer_id, "adjust-loyalty-points").as_str(),
        )
    }
}

} // verus!
