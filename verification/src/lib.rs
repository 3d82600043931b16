//! Paged, searchable, sorted listing of posts: the validation of a request, the two
//! statements that answer it, and the response.

pub mod error;
pub mod listing;
pub mod request;
pub mod statement;
pub mod text;

pub use error::{Field, ListingError, StoreFailure};
pub use listing::{begin, AwaitingRows, AwaitingTotal, PaginatedResponse};
pub use request::{normalize, Column, Direction, Params, QuerySpec};
pub use statement::{count_statement, listing_statement, Statement};
