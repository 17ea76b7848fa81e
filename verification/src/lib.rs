//! Typed request construction for the five resource collections of
//! The One API: attributes, filters, sorting and pagination, combined by a
//! builder into one validated request with a single canonical query string.

pub mod client;
pub mod error;
pub mod item;
pub mod request;
pub mod text;

pub use error::Error;
pub use item::attribute;
pub use item::ItemType;
pub use request::filter;
pub use request::pagination::Pagination;
pub use request::sort;
pub use request::Request;
pub use request::RequestBuilder;
