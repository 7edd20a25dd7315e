use crate::client::{Call, Method, Puxbay};
use crate::paths::{
    and_filter, collection, collection_path, filter_view, filtered_page_path, item, item_path,
    operation, operation_path, page_of,
};
use vstd::prelude::*;

verus! {

/// Calls on stock transfers between branches.
pub struct StockTransfersResource<'a> {
    pub client: &'a Puxbay,
}

impl<'a> StockTransfersResource<'a> {
    /// The resource as reached through `client`.
    pub fn new(client: &'a Puxbay) -> (resource: Self)
        ensures
            resource.client == client,
    {
        StockTransfersResource { client }
    }

    /// One page of stock transfers, optionally only those with the given status:
    /// `GET stock-transfers/?page=N[&status=V]`.
    pub fn list(&self, page: i32, status: Option<&str>) -> (call: Call)
        ensures
            call@ == self.client@.call(
                Method::Get,
                and_filter(
                    page_of("stock-transfers"@, page as int),
                    "status"@,
                    filter_view(status),
                ),
            ),
    {
        self.client.request(
            Method::Get,
            filtered_page_path("stock-transfers", page, "status", status).as_str(),
        )
    }

    /// One stock transfer: `GET stock-transfers/{id}/`.
    pub fn get(&self, transfer_id: &str) -> (call: Call)
        ensures
            call@ == self.client@.call(Method::Get, item("stock-transfers"@, transfer_id@)),
    {
        self.client.request(Method::Get, item_path("stock-transfers", transfer_id).as_str())
    }

    /// A new stock transfer, sent as the body: `POST stock-transfers/`.
    pub fn create(&self) -> (call: Call)
        ensures
            call@ == self.client@.call(Method::Post, collection("stock-transfers"@)),
    {
        self.client.request(Method::Post, collection_path("stock-transfers").as_str())
    }

    /// Completes a transfer: `POST stock-transfers/{id}/complete/`.
    pub fn complete(&self, transfer_id: &str) -> (call: Call)
        ensures
            call@ == self.client@.call(
                Method::Post,
                operation("stock-transfers"@, transfer_id@, "complete"@),
            ),
    {
        self.client.request(
            Method::Post,
            operation_path("stock-transfers", transfer_id, "complete").as_str(),
        )
    }
}

} // verus!
