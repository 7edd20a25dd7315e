use crate::client::{Call, Method, Puxbay};
use crate::paths::{and_param, push_param, query, query_path};
use vstd::prelude::*;

verus! {

/// Calls on stock levels.
pub struct InventoryResource<'a> {
    pub client: &'a Puxbay,
}

impl<'a> InventoryResource<'a> {
    /// The resource as reached through `client`.
    pub fn new(client: &'a Puxbay) -> (resource: Self)
        ensures
            resource.client == client,
    {
        InventoryResource { client }
    }

    /// Stock levels of a branch: `GET inventory/stock-levels/?branch=B`.
    pub fn get_stock_levels(&self, branch_id: &str) -> (call: Call)
        ensures
            call@ == self.client@.call(
                Method::Get,
                query("inventory/stock-levels"@, "branch"@, branch_id@),
            ),
    {
        self.client.request(
            Method::Get,
            query_path("inventory/stock-levels", "branch", branch_id).as_str(),
        )
    }

    /// Stock of one product at a branch:
    /// `GET inventory/product-stock/?product=P&branch=B`.
    pub fn get_product_stock(&self, product_id: &str, branch_id: &str) -> (call: Call)
        ensures
            call@ == self.client@.call(
                Method::Get,
                and_param(
                    query("inventory/product-stock"@, "product"@, product_id@),
                    "branch"@,
                    branch_id@,
                ),
            ),
    {
        let mut path: String = query_path("inventory/product-stock", "product", product_id);
        push_param(&mut path, "branch", branch_id);
        self.client.request(Method::Get, path.as_str())
    }
}

} // verus!
