use crate::client::{Call, Method, Puxbay};
use crate::paths::{
    and_filter, collection, collection_path, filter_view, filtered_page_path, item, item_path,
    operation, operation_path, page_of,
};
use vstd::prelude::*;

verus! {

/// Calls on purchase orders.
pub struct PurchaseOrdersResource<'a> {
    pub client: &'a Puxbay,
}

impl<'a> PurchaseOrdersResource<'a> {
    /// The resource as reached through `client`.
    pub fn new(client: &'a Puxbay) -> (resource: Self)
        ensures
            resource.client == client,
    {
        PurchaseOrdersResource { client }
    }

    /// One page of purchase orders, optionally only those with the given status:
    /// `GET purchase-orders/?page=N[&status=V]`.
    pub fn list(&self, page: i32, status: Option<&str>) -> (call: Call)
        ensures
            call@ == self.client@.call(
                Method::Get,
                and_filter(
                    page_of("purchase-orders"@, page as int),
                    "status"@,
                    filter_view(status),
                ),
            ),
    {
        self.client.request(
            Method::Get,
            filtered_page_path("purchase-orders", page, "status", status).as_str(),
        )
    }

    /// One purchase order: `GET purchase-orders/{id}/`.
    pub fn get(&self, po_id: &str) -> (call: Call)
        ensures
            call@ == self.client@.call(Method::Get, item("purchase-orders"@, po_id@)),
    {
        self.client.request(Method::Get, item_path("purchase-orders", po_id).as_str())
    }

    /// A new purchase order, sent as the body: `POST purchase-orders/`.
    pub fn create(&self) -> (call: Call)
        ensures
            call@ == self.client@.call(Method::Post, collection("purchase-orders"@)),
    {
        self.client.request(Method::Post, collection_path("purchase-orders").as_str())
    }

    /// Changes to a purchase order, sent as the body: `PATCH purchase-orders/{id}/`.
    pub fn update(&self, po_id: &str) -> (call: Call)
        ensures
            call@ == self.client@.call(Method::Patch, item("purchase-orders"@, po_id@)),
    {
        self.client.request(Method::Patch, item_path("purchase-orders", po_id).as_str())
    }

    /// Records a delivery, with the received items as the body:
    /// `POST purchase-orders/{id}/receive/`.
    pub fn receive(&self, po_id: &str) -> (call: Call)
        ensures
            call@ == self.client@.call(
                Method::Post,
                operation("purchase-orders"@, po_id@, "receive"@),
            ),
    {
        self.client.request(
            Method::Post,
            operation_path("purchase-orders", po_id, "receive").as_str(),
        )
    }
}

} // verus!
