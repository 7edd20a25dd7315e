//! The client: validated configuration, the fixed request headers, and the
//! entry point that turns a method and an endpoint into a call.

use crate::dispatch::{initial, Dispatch, DispatchView};
use crate::error::{
    classify, error_message, error_payload, message_or_unknown, ErrorResponse, ErrorView,
    PuxbayError,
};
use crate::resources::{
    BranchesResource, CashDrawersResource, CategoriesResource, CustomersResource, ExpensesResource,
    GiftCardsResource, InventoryResource, NotificationsResource, OrdersResource, ProductsResource,
    PurchaseOrdersResource, ReportsResource, ReturnsResource, StaffResource,
    StockTransfersResource, StocktakesResource, SuppliersResource, WebhooksResource,
};
use crate::text::starts_with;
use vstd::prelude::*;

verus! {

/// The HTTP methods that the API uses.
#[derive(Debug, Clone, Copy, PartialEq, Eq, Structural)]
pub enum Method {
    Get,
    Post,
    Patch,
    Delete,
}

/// The name of a method on the wire.
pub open spec fn method_name(method: Method) -> Seq<char> {
    match method {
        Method::Get => "GET"@,
        Method::Post => "POST"@,
        Method::Patch => "PATCH"@,
        Method::Delete => "DELETE"@,
    }
}

impl Method {
    /// The name of the method on the wire.
    pub fn as_str(&self) -> (name: &'static str)
        ensures
            name@ == method_name(*self),
    {
        match self {
            Method::Get => "GET",
            Method::Post => "POST",
            Method::Patch => "PATCH",
            Method::Delete => "DELETE",
        }
    }
}

/// Configuration for a client.
#[derive(Debug, Clone, PartialEq, Eq)]
pub struct PuxbayConfig {
    /// Root of the API, without a trailing slash.
    pub base_url: String,
    /// Per-request timeout in seconds.
    pub timeout: u64,
    /// How many attempts may follow the first.
    pub max_retries: u32,
}

/// The root of the hosted API.
pub open spec fn default_base_url() -> Seq<char> {
    "https://api.puxbay.com/api/v1"@
}

impl Default for PuxbayConfig {
    fn default() -> (config: Self)
        ensures
            config.base_url@ == default_base_url(),
            config.timeout == 30,
            config.max_retries == 3,
    {
        PuxbayConfig {
            base_url: String::from_str("https://api.puxbay.com/api/v1"),
            timeout: 30,
            max_retries: 3,
        }
    }
}

/// The prefix that every API key carries.
pub open spec fn key_prefix() -> Seq<char> {
    "pb_"@
}

/// Whether a credential has the shape of an API key.
pub open spec fn is_api_key(key: Seq<char>) -> bool {
    key_prefix().is_prefix_of(key)
}

/// The headers sent with every request: the credential, the content type,
/// the client identifier, and the accepted encodings.
pub open spec fn fixed_headers(api_key: Seq<char>) -> Seq<(Seq<char>, Seq<char>)> {
    seq![
        ("X-API-Key"@, api_key),
        ("Content-Type"@, "application/json"@),
        ("User-Agent"@, "puxbay-rust/1.0.0"@),
        ("Accept-Encoding"@, "gzip, deflate"@),
    ]
}

/// The address of an endpoint: the base URL, a slash, and the relative path.
pub open spec fn endpoint_url(base_url: Seq<char>, endpoint: Seq<char>) -> Seq<char> {
    base_url + "/"@ + endpoint
}

/// View of a list of headers.
pub open spec fn header_views(headers: Seq<(String, String)>) -> Seq<(Seq<char>, Seq<char>)> {
    headers.map_values(|h: (String, String)| (h.0@, h.1@))
}

/// A client for the API. It holds configuration only, and is never changed
/// after construction.
#[derive(Debug)]
pub struct Puxbay {
    api_key: String,
    base_url: String,
    timeout: u64,
    max_retries: u32,
}

/// Mathematical view of a [`Puxbay`].
pub struct PuxbayView {
    pub api_key: Seq<char>,
    pub base_url: Seq<char>,
    pub timeout: u64,
    pub max_retries: u32,
}

impl View for Puxbay {
    type V = PuxbayView;

    closed spec fn view(&self) -> PuxbayView {
        PuxbayView {
            api_key: self.api_key@,
            base_url: self.base_url@,
            timeout: self.timeout,
            max_retries: self.max_retries,
        }
    }
}

/// One logical call, ready to be sent: where it goes, the headers it
/// carries, and the dispatcher that will decide over its outcome.
#[derive(Debug, Clone, PartialEq, Eq)]
pub struct Call {
    pub method: Method,
    pub url: String,
    pub headers: Vec<(String, String)>,
    pub dispatch: Dispatch,
}

/// Mathematical view of a [`Call`].
pub struct CallView {
    pub method: Method,
    pub url: Seq<char>,
    pub headers: Seq<(Seq<char>, Seq<char>)>,
    pub dispatch: DispatchView,
}

impl View for Call {
    type V = CallView;

    open spec fn view(&self) -> CallView {
        CallView {
            method: self.method,
            url: self.url@,
            headers: header_views(self.headers@),
            dispatch: self.dispatch@,
        }
    }
}

impl PuxbayView {
    /// The call that a client with this configuration issues for a method
    /// and an endpoint.
    pub open spec fn call(self, method: Method, endpoint: Seq<char>) -> CallView {
        CallView {
            method,
            url: endpoint_url(self.base_url, endpoint),
            headers: fixed_headers(self.api_key),
            dispatch: initial(self.max_retries as nat),
        }
    }
}

impl Puxbay {
    /// Every client holds a credential with the key prefix.
    #[verifier::type_invariant]
    spec fn holds_api_key(self) -> bool {
        is_api_key(self.api_key@)
    }

    /// Creates a client with the default configuration.
    pub fn new(api_key: &str) -> (r: Result<Puxbay, PuxbayError>)
        ensures
            match r {
                Ok(client) => is_api_key(api_key@) && client@ == (PuxbayView {
                    api_key: api_key@,
                    base_url: default_base_url(),
                    timeout: 30,
                    max_retries: 3,
                }),
                Err(e) => !is_api_key(api_key@) && e@ == ErrorView::InvalidApiKey,
            },
    {
        Puxbay::with_config(api_key, PuxbayConfig::default())
    }

    /// Creates a client with a custom configuration. Fails exactly when the
    /// key lacks the prefix; nothing is sent.
    pub fn with_config(api_key: &str, config: PuxbayConfig) -> (r: Result<Puxbay, PuxbayError>)
        ensures
            match r {
                Ok(client) => is_api_key(api_key@) && client@ == (PuxbayView {
                    api_key: api_key@,
                    base_url: config.base_url@,
                    timeout: config.timeout,
                    max_retries: config.max_retries,
                }),
                Err(e) => !is_api_key(api_key@) && e@ == ErrorView::InvalidApiKey,
            },
    {
        if !starts_with(api_key, "pb_") {
            return Err(PuxbayError::InvalidApiKey);
        }
        Ok(
            Puxbay {
                api_key: String::from_str(api_key),
                base_url: config.base_url,
                timeout: config.timeout,
                max_retries: config.max_retries,
            },
        )
    }

    /// The credential.
    pub fn api_key(&self) -> (key: &str)
        ensures
            key@ == self@.api_key,
            is_api_key(key@),
    {
        proof {
            use_type_invariant(self);
        }
        self.api_key.as_str()
    }

    /// Root of the API.
    pub fn base_url(&self) -> (url: &str)
        ensures
            url@ == self@.base_url,
    {
        self.base_url.as_str()
    }

    /// Per-request timeout in seconds.
    pub fn timeout(&self) -> (secs: u64)
        ensures
            secs == self@.timeout,
    {
        self.timeout
    }

    /// How many attempts may follow the first.
    pub fn max_retries(&self) -> (n: u32)
        ensures
            n == self@.max_retries,
    {
        self.max_retries
    }

    /// The headers to send with every request, in order.
    pub fn default_headers(&self) -> (headers: Vec<(String, String)>)
        ensures
            header_views(headers@) == fixed_headers(self@.api_key),
    {
        let mut headers: Vec<(String, String)> = Vec::new();
        headers.push((String::from_str("X-API-Key"), self.api_key.clone()));
        headers.push((String::from_str("Content-Type"), String::from_str("application/json")));
        headers.push((String::from_str("User-Agent"), String::from_str("puxbay-rust/1.0.0")));
        headers.push((String::from_str("Accept-Encoding"), String::from_str("gzip, deflate")));
        headers
    }

    /// The address of an endpoint given relative to the base URL.
    pub fn url_for(&self, endpoint: &str) -> (url: String)
        ensures
            url@ == endpoint_url(self@.base_url, endpoint@),
    {
        let mut url: String = self.base_url.clone();
        url.append("/");
        url.append(endpoint);
        url
    }

    // Resource accessors
    /// Products.
    pub fn products(&self) -> (resource: ProductsResource<'_>)
        ensures
            resource.client == self,
    {
        ProductsResource::new(self)
    }

    /// Orders.
    pub fn orders(&self) -> (resource: OrdersResource<'_>)
        ensures
            resource.client == self,
    {
        OrdersResource::new(self)
    }

    /// Customers.
    pub fn customers(&self) -> (resource: CustomersResource<'_>)
        ensures
            resource.client == self,
    {
        CustomersResource::new(self)
    }

    /// Categories.
    pub fn categories(&self) -> (resource: CategoriesResource<'_>)
        ensures
            resource.client == self,
    {
        CategoriesResource::new(self)
    }

    /// Suppliers.
    pub fn suppliers(&self) -> (resource: SuppliersResource<'_>)
        ensures
            resource.client == self,
    {
        SuppliersResource::new(self)
    }

    /// Gift cards.
    pub fn gift_cards(&self) -> (resource: GiftCardsResource<'_>)
        ensures
            resource.client == self,
    {
        GiftCardsResource::new(self)
    }

    /// Branches.
    pub fn branches(&self) -> (resource: BranchesResource<'_>)
        ensures
            resource.client == self,
    {
        BranchesResource::new(self)
    }

    /// Staff.
    pub fn staff(&self) -> (resource: StaffResource<'_>)
        ensures
            resource.client == self,
    {
        StaffResource::new(self)
    }

    /// Webhooks.
    pub fn webhooks(&self) -> (resource: WebhooksResource<'_>)
        ensures
            resource.client == self,
    {
        WebhooksResource::new(self)
    }

    /// Purchase orders.
    pub fn purchase_orders(&self) -> (resource: PurchaseOrdersResource<'_>)
        ensures
            resource.client == self,
    {
        PurchaseOrdersResource::new(self)
    }

    /// Stock transfers.
    pub fn stock_transfers(&self) -> (resource: StockTransfersResource<'_>)
        ensures
            resource.client == self,
    {
        StockTransfersResource::new(self)
    }

    /// Inventory.
    pub fn inventory(&self) -> (resource: InventoryResource<'_>)
        ensures
            resource.client == self,
    {
        InventoryResource::new(self)
    }

    /// Reports.
    pub fn reports(&self) -> (resource: ReportsResource<'_>)
        ensures
            resource.client == self,
    {
        ReportsResource::new(self)
    }

    /// Stocktakes.
    pub fn stocktakes(&self) -> (resource: StocktakesResource<'_>)
        ensures
            resource.client == self,
    {
        StocktakesResource::new(self)
    }

    /// Cash drawers.
    pub fn cash_drawers(&self) -> (resource: CashDrawersResource<'_>)
        ensures
            resource.client == self,
    {
        CashDrawersResource::new(self)
    }

    /// Expenses.
    pub fn expenses(&self) -> (resource: ExpensesResource<'_>)
        ensures
            resource.client == self,
    {
        ExpensesResource::new(self)
    }

    /// Notifications.
    pub fn notifications(&self) -> (resource: NotificationsResource<'_>)
        ensures
            resource.client == self,
    {
        NotificationsResource::new(self)
    }

    /// Return requests.
    pub fn return_requests(&self) -> (resource: ReturnsResource<'_>)
        ensures
            resource.client == self,
    {
        ReturnsResource::new(self)
    }

    /// Starts a call: fixes its address and headers and hands out the
    /// dispatcher that decides over retries and the final outcome.
    pub fn request(&self, method: Method, endpoint: &str) -> (call: Call)
        ensures
            call@ == self@.call(method, endpoint@),
    {
        Call {
            method,
            url: self.url_for(endpoint),
            headers: self.default_headers(),
            dispatch: Dispatch::new(self.max_retries),
        }
    }

    /// The error for a terminal response: its kind from the status, its
    /// message from the body.
    pub fn handle_error_response(status: u16, body: &str) -> (e: PuxbayError)
        ensures
            e@ == classify(status, error_message(error_payload(body@))),
    {
        let message: String = message_or_unknown(ErrorResponse::parse(body));
        PuxbayError::from_status(status, message)
    }
}

} // verus!
