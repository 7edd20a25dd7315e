//! Data shapes of the API that hold no fractional amounts.

pub mod branch;
pub mod category;
pub mod notification;
pub mod paginated_response;
pub mod product;
pub mod staff;
pub mod stock_transfer;
pub mod stocktake;
pub mod supplier;
pub mod webhook;

pub use branch::Branch;
pub use category::Category;
pub use notification::Notification;
pub use paginated_response::PaginatedResponse;
pub use product::default_true;
pub use staff::Staff;
pub use stock_transfer::StockTransfer;
pub use stocktake::Stocktake;
pub use supplier::Supplier;
pub use webhook::Webhook;
