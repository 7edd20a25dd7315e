use crate::client::{Call, Method, Puxbay};
use crate::paths::{
    and_param, collection, collection_path, number_query_path, push_param, query, query_path,
};
use crate::text::decimal;
use vstd::prelude::*;

verus! {

/// Calls on reports.
pub struct ReportsResource<'a> {
    pub client: &'a Puxbay,
}

impl<'a> ReportsResource<'a> {
    /// The resource as reached through `client`.
    pub fn new(client: &'a Puxbay) -> (resource: Self)
        ensures
            resource.client == client,
    {
        ReportsResource { client }
    }

    /// Financial summary of a period:
    /// `GET reports/financial-summary/?start_date=S&end_date=E`.
    pub fn financial_summary(&self, start_date: &str, end_date: &str) -> (call: Call)
        ensures
            call@ == self.client@.call(
                Method::Get,
                and_param(
                    query("reports/financial-summary"@, "start_date"@, start_date@),
                    "end_date"@,
                    end_date@,
                ),
            ),
    {
        let mut path: String = query_path("reports/financial-summary", "start_date", start_date);
        push_param(&mut path, "end_date", end_date);
        self.client.request(Method::Get, path.as_str())
    }

    /// Sales per day of a period: `GET reports/daily-sales/?start_date=S&end_date=E`.
    pub fn daily_sales(&self, start_date: &str, end_date: &str) -> (call: Call)
        ensures
            call@ == self.client@.call(
                Method::Get,
                and_param(
                    query("reports/daily-sales"@, "start_date"@, start_date@),
                    "end_date"@,
                    end_date@,
                ),
            ),
    {
        let mut path: String = query_path("reports/daily-sales", "start_date", start_date);
        push_param(&mut path, "end_date", end_date);
        self.client.request(Method::Get, path.as_str())
    }

    /// The best-selling products: `GET reports/top-products/?limit=N`.
    pub fn top_products(&self, limit: i32) -> (call: Call)
        ensures
            call@ == self.client@.call(
                Method::Get,
                query("reports/top-products"@, "limit"@, decimal(limit as int)),
            ),
    {
        self.client.request(
            Method::Get,
            number_query_path("reports/top-products", "limit", limit).as_str(),
        )
    }

    /// Products that run low: `GET reports/low-stock/`.
    pub fn low_stock(&self) -> (call: Call)
        ensures
            call@ == self.client@.call(Method::Get, collection("reports/low-stock"@)),
    {
        self.client.request(Method::Get, collection_path("reports/low-stock").as_str())
    }
}

} // verus!
