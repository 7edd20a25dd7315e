//! One module per resource of the API. Each method names the endpoint of an
//! operation and starts the call for it; what the operation sends as a body
//! and gets back is up to the transport.

pub mod branches;
pub mod cash_drawers;
pub mod categories;
pub mod customers;
pub mod expenses;
pub mod gift_cards;
pub mod inventory;
pub mod notifications;
pub mod orders;
pub mod products;
pub mod purchase_orders;
pub mod reports;
pub mod return_requests;
pub mod staff;
pub mod stock_transfers;
pub mod stocktakes;
pub mod suppliers;
pub mod webhooks;

pub use branches::BranchesResource;
pub use cash_drawers::CashDrawersResource;
pub use categories::CategoriesResource;
pub use customers::CustomersResource;
pub use expenses::ExpensesResource;
pub use gift_cards::GiftCardsResource;
pub use inventory::InventoryResource;
pub use notifications::NotificationsResource;
pub use orders::OrdersResource;
pub use products::ProductsResource;
pub use purchase_orders::PurchaseOrdersResource;
pub use reports::ReportsResource;
pub use return_requests::ReturnsResource;
pub use staff::StaffResource;
pub use stock_transfers::StockTransfersResource;
pub use stocktakes::StocktakesResource;
pub use suppliers::SuppliersResource;
pub use webhooks::WebhooksResource;
