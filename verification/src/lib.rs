//! Client-side core of a paginated REST API: parsing the link-style
//! pagination header into a navigable cursor, and tolerant decoding of
//! course records that the API may return in a restricted, partial form.

pub mod courses;
pub mod json;
pub mod link;
pub mod pagination;

pub use pagination::InvalidPaginationError;
pub use pagination::Pagination;
