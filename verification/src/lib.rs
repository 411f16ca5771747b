//! Rental listings: the order ledger that threads lease negotiations through
//! append-only records, and the filtered listing search with its page-count cache.

pub mod claims;
pub mod condition;
pub mod datetime;
pub mod decimal;
pub mod errors;
pub mod house_filter;
pub mod house_listing;
pub mod house_service;
pub mod order;
pub mod order_service;
pub mod page_cache;
pub mod session_data;
pub mod signature;
pub mod user;
pub mod user_service;

pub use claims::Claims;
pub use errors::JieguoResponse;
pub use errors::MXFError;
pub use house_filter::HouseFilter;
pub use house_listing::ListStatus;
pub use house_listing::Model as HouseListingModel;
pub use house_service::HouseService;
pub use order::Model as OrderModel;
pub use order::OrderType;
pub use order_service::OrderService;
pub use session_data::LoginData;
pub use session_data::RegisterData;
pub use user::Model as UserModel;
pub use user::UserType;
pub use user_service::UserService;
