use crate::client::{Call, Method, Puxbay};
use crate::paths::{
    collection, collection_path, item, item_path, operation, operation_path, sized_page_of,
    sized_page_path,
};
use vstd::prelude::*;

verus! {

/// Calls on orders.
pub struct OrdersResource<'a> {
    pub client: &'a Puxbay,
}

impl<'a> OrdersResource<'a> {
    /// The resource as reached through `client`.
    pub fn new(client: &'a Puxbay) -> (resource: Self)
        ensures
            resource.client == client,
    {
        OrdersResource { client }
    }

    /// One page of orders: `GET orders/?page=N&page_size=M`.
    pub fn list(&self, page: i32, page_size: i32) -> (call: Call)
        ensures
            call@ == self.client@.call(
                Method::Get,
                sized_page_of("orders"@, page as int, page_size as int),
            ),
    {
        self.client.request(Method::Get, sized_page_path("orders", page, page_size).as_str())
    }

    /// One order: `GET orders/{id}/`.
    pub fn get(&self, order_id: &str) -> (call: Call)
        ensures
            call@ == self.client@.call(Method::Get, item("orders"@, order_id@)),
    {
        self.client.request(Method::Get, item_path("orders", order_id).as_str())
    }

    /// An new order, sent as the body: `POST orders/`.
    pub fn create(&self) -> (call: Call)
        ensures
            call@ == self.client@.call(Method::Post, collection("orders"@)),
    {
        self.client.request(Method::Post, collection_path("orders").as_str())
    }

    /// Cancels an order: `POST orders/{id}/cancel/`.
    pub fn cancel(&self, order_id: &str) -> (call: Call)
        ensures
            call@ == self.client@.call(Method::Post, operation("orders"@, order_id@, "cancel"@)),
    {
        self.client.request(Method::Post, operation_path("orders", order_id, "cancel").as_str())
    }
}

} // verus!
