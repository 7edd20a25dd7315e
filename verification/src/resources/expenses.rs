use crate::client::{Call, Method, Puxbay};
use crate::paths::{
    and_filter, collection, collection_path, filter_view, filtered_page_path, item, item_path,
    page_of,
};
use vstd::prelude::*;

verus! {

/// Calls on expenses.
pub struct ExpensesResource<'a> {
    pub client: &'a Puxbay,
}

impl<'a> ExpensesResource<'a> {
    /// The resource as reached through `client`.
    pub fn new(client: &'a Puxbay) -> (resource: Self)
        ensures
            resource.client == client,
    {
        ExpensesResource { client }
    }

    /// One page of expenses, optionally only those with the given category:
    /// `GET expenses/?page=N[&category=V]`.
    pub fn list(&self, page: i32, category: Option<&str>) -> (call: Call)
        ensures
            call@ == self.client@.call(
                Method::Get,
                and_filter(page_of("expenses"@, page as int), "category"@, filter_view(category)),
            ),
    {
        self.client.request(
            Method::Get,
            filtered_page_path("expenses", page, "category", category).as_str(),
        )
    }

    /// One expense: `GET expenses/{id}/`.
    pub fn get(&self, expense_id: &str) -> (call: Call)
        ensures
            call@ == self.client@.call(Method::Get, item("expenses"@, expense_id@)),
    {
        self.client.request(Method::Get, item_path("expenses", expense_id).as_str())
    }

    /// An new expense, sent as the body: `POST expenses/`.
    pub fn create(&self) -> (call: Call)
        ensures
            call@ == self.client@.call(Method::Post, collection("expenses"@)),
    {
        self.client.request(Method::Post, collection_path("expenses").as_str())
    }

    /// Changes to an expense, sent as the body: `PATCH expenses/{id}/`.
    pub fn update(&self, expense_id: &str) -> (call: Call)
        ensures
            call@ == self.client@.call(Method::Patch, item("expenses"@, expense_id@)),
    {
        self.client.request(Method::Patch, item_path("expenses", expense_id).as_str())
    }

    /// Removes an expense: `DELETE expenses/{id}/`.
    pub fn delete(&self, expense_id: &str) -> (call: Call)
        ensures
            call@ == self.client@.call(Method::Delete, item("expenses"@, expense_id@)),
    {
        self.client.request(Method::Delete, item_path("expenses", expense_id).as_str())
    }

    /// The expense categories in use: `GET expense-categories/`.
    pub fn list_categories(&self) -> (call: Call)
        ensures
            call@ == self.client@.call(Method::Get, collection("expense-categories"@)),
    {
        self.client.request(Method::Get, collection_path("expense-categories").as_str())
    }
}

} // verus!
