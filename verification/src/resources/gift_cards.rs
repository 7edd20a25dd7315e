use crate::client::{Call, Method, Puxbay};
use crate::paths::{
    and_filter, collection, collection_path, filter_view, filtered_page_path, item, item_path,
    operation, operation_path, page_of, query, query_path,
};
use vstd::prelude::*;

verus! {

/// Calls on gift cards.
pub struct GiftCardsResource<'a> {
    pub client: &'a Puxbay,
}

impl<'a> GiftCardsResource<'a> {
    /// The resource as reached through `client`.
    pub fn new(client: &'a Puxbay) -> (resource: Self)
        ensures
            resource.client == client,
    {
        GiftCardsResource { client }
    }

    /// One page of gift cards, optionally only those with the given status:
    /// `GET gift-cards/?page=N[&status=V]`.
    pub fn list(&self, page: i32, status: Option<&str>) -> (call: Call)
        ensures
            call@ == self.client@.call(
                Method::Get,
                and_filter(page_of("gift-cards"@, page as int), "status"@, filter_view(status)),
            ),
    {
        self.client.request(
            Method::Get,
            filtered_page_path("gift-cards", page, "status", status).as_str(),
        )
    }

    /// One gift card: `GET gift-cards/{id}/`.
    pub fn get(&self, card_id: &str) -> (call: Call)
        ensures
            call@ == self.client@.call(Method::Get, item("gift-cards"@, card_id@)),
    {
        self.client.request(Method::Get, item_path("gift-cards", card_id).as_str())
    }

    /// A new gift card, sent as the body: `POST gift-cards/`.
    pub fn create(&self) -> (call: Call)
        ensures
            call@ == self.client@.call(Method::Post, collection("gift-cards"@)),
    {
        self.client.request(Method::Post, collection_path("gift-cards").as_str())
    }

    /// Redeems part of a card, with the amount as the body:
    /// `POST gift-cards/{id}/redeem/`.
    pub fn redeem(&self, card_id: &str) -> (call: Call)
        ensures
            call@ == self.client@.call(Method::Post, operation("gift-cards"@, card_id@, "redeem"@)),
    {
        self.client.request(Method::Post, operation_path("gift-cards", card_id, "redeem").as_str())
    }

    /// The balance of the card with a code: `GET gift-cards/check-balance/?code=C`.
    pub fn check_balance(&self, code: &str) -> (call: Call)
        ensures
            call@ == self.client@.call(
                Method::Get,
                query("gift-cards/check-balance"@, "code"@, code@),
            ),
    {
        self.client.request(
            Method::Get,
            query_path("gift-cards/check-balance", "code", code).as_str(),
        )
    }
}

} // verus!
