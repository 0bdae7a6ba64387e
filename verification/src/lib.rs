//! A typed client core for the Newegg Marketplace API.
//!
//! The crate holds everything about the API that can be decided without
//! touching the network: which request goes where and with which headers, how
//! a raw response turns into a value or a classified error, and how the
//! submit / poll / fetch cycle of feeds and reports is driven. Sending a
//! prepared request and reading the answer is left to the caller.

pub mod text;
pub mod helpers;
pub mod types;
pub mod result;
pub mod client;
pub mod feed;
pub mod order;
pub mod report;
pub mod service_status;

pub use self::client::NeweggMarketplace;
pub use self::types::IsSuccess;
pub use self::types::MaybeList;
pub use self::types::NeweggApiResponse;
pub use self::types::NeweggApiResponseWrapped;
