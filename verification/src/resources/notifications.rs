use crate::client::{Call, Method, Puxbay};
use crate::paths::{item, item_path, operation, operation_path, page_of, page_path};
use vstd::prelude::*;

verus! {

/// Calls on notifications.
pub struct NotificationsResource<'a> {
    pub client: &'a Puxbay,
}

impl<'a> NotificationsResource<'a> {
    /// The resource as reached through `client`.
    pub fn new(client: &'a Puxbay) -> (resource: Self)
        ensures
            resource.client == client,
    {
        NotificationsResource { client }
    }

    /// One page of notifications: `GET notifications/?page=N`.
    pub fn list(&self, page: i32) -> (call: Call)
        ensures
            call@ == self.client@.call(Method::Get, page_of("notifications"@, page as int)),
    {
        self.client.request(Method::Get, page_path("notifications", page).as_str())
    }

    /// One notification: `GET notifications/{id}/`.
    pub fn get(&self, notification_id: &str) -> (call: Call)
        ensures
            call@ == self.client@.call(Method::Get, item("notifications"@, notification_id@)),
    {
        self.client.request(Method::Get, item_path("notifications", notification_id).as_str())
    }

    /// Marks a notification as read: `POST notifications/{id}/mark-read/`.
    pub fn mark_as_read(&self, notification_id: &str) -> (call: Call)
        ensures
            call@ == self.client@.call(
                Method::Post,
                operation("notifications"@, notification_id@, "mark-read"@),
            ),
    {
        self.client.request(
            Method::Post,
            operation_path("notifications", notification_id, "mark-read").as_str(),
        )
    }
}

} // verus!
