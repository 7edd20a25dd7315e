use crate::client::{Call, Method, Puxbay};
use crate::paths::{
    and_filter, collection, collection_path, filter_view, filtered_page_path, item, item_path,
    page_of,
};
use vstd::prelude::*;

verus! {

/// Calls on staff members.
pub struct StaffResource<'a> {
    pub client: &'a Puxbay,
}

impl<'a> StaffResource<'a> {
    /// The resource as reached through `client`.
    pub fn new(client: &'a Puxbay) -> (resource: Self)
        ensures
            resource.client == client,
    {
        StaffResource { client }
    }

    /// One page of staff members, optionally only those with the given role:
    /// `GET staff/?page=N[&role=V]`.
    pub fn list(&self, page: i32, role: Option<&str>) -> (call: Call)
        ensures
            call@ == self.client@.call(
                Method::Get,
                and_filter(page_of("staff"@, page as int), "role"@, filter_view(role)),
            ),
    {
        self.client.request(Method::Get, filtered_page_path("staff", page, "role", role).as_str())
    }

    /// One staff member: `GET staff/{id}/`.
    pub fn get(&self, staff_id: &str) -> (call: Call)
        ensures
            call@ == self.client@.call(Method::Get, item("staff"@, staff_id@)),
    {
        self.client.request(Method::Get, item_path("staff", staff_id).as_str())
    }

    /// A new staff member, sent as the body: `POST staff/`.
    pub fn create(&self) -> (call: Call)
        ensures
            call@ == self.client@.call(Method::Post, collection("staff"@)),
    {
        self.client.request(Method::Post, collection_path("staff").as_str())
    }

    /// Changes to a staff member, sent as the body: `PATCH staff/{id}/`.
    pub fn update(&self, staff_id: &str) -> (call: Call)
        ensures
            call@ == self.client@.call(Method::Patch, item("staff"@, staff_id@)),
    {
        self.client.request(Method::Patch, item_path("staff", staff_id).as_str())
    }

    /// Removes a staff member: `DELETE staff/{id}/`.
    pub fn delete(&self, staff_id: &str) -> (call: Call)
        ensures
            call@ == self.client@.call(Method::Delete, item("staff"@, staff_id@)),
    {
        self.client.request(Method::Delete, item_path("staff", staff_id).as_str())
    }
}

} // verus!
