//! The ways in which a listing request can fail.

use vstd::prelude::*;

verus! {

/// A request parameter that validation can reject.
#[derive(Clone, Copy, Debug, PartialEq, Eq, Structural)]
pub enum Field {
    Page,
    PageSize,
    SortBy,
    SortOrder,
    Search,
}

/// How the store failed to answer a statement.
#[derive(Clone, Copy, Debug, PartialEq, Eq, Structural)]
pub enum StoreFailure {
    /// The statement could not be run: no connection, a failed execution, a timeout.
    Storage,
    /// The statement ran, but a row does not have the shape of a post.
    Serialization,
}

/// Why a request ends without a response.
#[derive(Clone, Copy, Debug, PartialEq, Eq, Structural)]
pub enum ListingError {
    /// A parameter is outside what the listing accepts; no statement was made.
    InvalidParameter(Field),
    /// The store could not run a statement.
    StorageError,
    /// A row of the store does not have the shape of a post.
    SerializationError,
}

impl Field {
    /// The name of the parameter as it stands in a request.
    pub open spec fn name_text(self) -> Seq<char> {
        match self {
            Field::Page => "page"@,
            Field::PageSize => "pageSize"@,
            Field::SortBy => "sortBy"@,
            Field::SortOrder => "sortOrder"@,
            Field::Search => "search"@,
        }
    }

    /// The name of the parameter as it stands in a request.
    pub fn name(self) -> (s: &'static str)
        ensures
            s@ == self.name_text(),
    {
        match self {
            Field::Page => "page",
            Field::PageSize => "pageSize",
            Field::SortBy => "sortBy",
            Field::SortOrder => "sortOrder",
            Field::Search => "search",
        }
    }
}

impl ListingError {
    /// The error that a failure of the store becomes.
    pub open spec fn of_failure(failure: StoreFailure) -> ListingError {
        match failure {
            StoreFailure::Storage => ListingError::StorageError,
            StoreFailure::Serialization => ListingError::SerializationError,
        }
    }

    /// The HTTP status that reports this error: 400 for a rejected parameter, 500 for
    /// anything that went wrong at the store.
    pub open spec fn status_code(self) -> int {
        match self {
            ListingError::InvalidParameter(_) => 400,
            ListingError::StorageError => 500,
            ListingError::SerializationError => 500,
        }
    }

    /// The error that a failure of the store becomes.
    pub fn from_failure(failure: StoreFailure) -> (e: ListingError)
        ensures
            e == ListingError::of_failure(failure),
    {
        match failure {
            StoreFailure::Storage => ListingError::StorageError,
            StoreFailure::Serialization => ListingError::SerializationError,
        }
    }

    /// The HTTP status that reports this error.
    pub fn status(&self) -> (code: u16)
        ensures
            code == self.status_code(),
    {
        match self {
            ListingError::InvalidParameter(_) => 400,
            ListingError::StorageError => 500,
            ListingError::SerializationError => 500,
        }
    }
}

} // verus!
