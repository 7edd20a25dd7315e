use crate::client::{Call, Method, Puxbay};
use crate::paths::{
    and_param, collection, collection_path, item, item_path, page_of, page_path, push_number_param,
    query, query_path,
};
use crate::text::decimal;
use vstd::prelude::*;

verus! {

/// Calls on webhook subscriptions.
pub struct WebhooksResource<'a> {
    pub client: &'a Puxbay,
}

impl<'a> WebhooksResource<'a> {
    /// The resource as reached through `client`.
    pub fn new(client: &'a Puxbay) -> (resource: Self)
        ensures
            resource.client == client,
    {
        WebhooksResource { client }
    }

    /// One page of webhooks: `GET webhooks/?page=N`.
    pub fn list(&self, page: i32) -> (call: Call)
        ensures
            call@ == self.client@.call(Method::Get, page_of("webhooks"@, page as int)),
    {
        self.client.request(Method::Get, page_path("webhooks", page).as_str())
    }

    /// One webhook: `GET webhooks/{id}/`.
    pub fn get(&self, webhook_id: &str) -> (call: Call)
        ensures
            call@ == self.client@.call(Method::Get, item("webhooks"@, webhook_id@)),
    {
        self.client.request(Method::Get, item_path("webhooks", webhook_id).as_str())
    }

    /// A new webhook, sent as the body: `POST webhooks/`.
    pub fn create(&self) -> (call: Call)
        ensures
            call@ == self.client@.call(Method::Post, collection("webhooks"@)),
    {
        self.client.request(Method::Post, collection_path("webhooks").as_str())
    }

    /// Changes to a webhook, sent as the body: `PATCH webhooks/{id}/`.
    pub fn update(&self, webhook_id: &str) -> (call: Call)
        ensures
            call@ == self.client@.call(Method::Patch, item("webhooks"@, webhook_id@)),
    {
        self.client.request(Method::Patch, item_path("webhooks", webhook_id).as_str())
    }

    /// Removes a webhook: `DELETE webhooks/{id}/`.
    pub fn delete(&self, webhook_id: &str) -> (call: Call)
        ensures
            call@ == self.client@.call(Method::Delete, item("webhooks"@, webhook_id@)),
    {
        self.client.request(Method::Delete, item_path("webhooks", webhook_id).as_str())
    }

    /// One page of the delivery log of a webhook:
    /// `GET webhook-logs/?webhook=W&page=N`.
    pub fn list_events(&self, webhook_id: &str, page: i32) -> (call: Call)
        ensures
            call@ == self.client@.call(
                Method::Get,
                and_param(
                    query("webhook-logs"@, "webhook"@, webhook_id@),
                    "page"@,
                    decimal(page as int),
                ),
            ),
    {
        let mut path: String = query_path("webhook-logs", "webhook", webhook_id);
        push_number_param(&mut path, "page", page);
        self.client.request(Method::Get, path.as_str())
    }
}

} // verus!
