use post_listing::error::{Field, ListingError, StoreFailure};

#[test]
fn a_rejected_parameter_is_a_bad_request() {
    for field in [Field::Page, Field::PageSize, Field::SortBy, Field::SortOrder, Field::Search] {
        assert_eq!(ListingError::InvalidParameter(field).status(), 400);
    }
}

#[test]
fn a_failure_of_the_store_is_a_server_error() {
    assert_eq!(ListingError::StorageError.status(), 500);
    assert_eq!(ListingError::SerializationError.status(), 500);
}

#[test]
fn store_failures_become_errors_of_their_kind() {
    assert_eq!(ListingError::from_failure(StoreFailure::Storage), ListingError::StorageError);
    assert_eq!(
        ListingError::from_failure(StoreFailure::Serialization),
        ListingError::SerializationError
    );
}

#[test]
fn fields_are_named_as_in_the_request() {
    assert_eq!(Field::Page.name(), "page");
    assert_eq!(Field::PageSize.name(), "pageSize");
    assert_eq!(Field::SortBy.name(), "sortBy");
    assert_eq!(Field::SortOrder.name(), "sortOrder");
    assert_eq!(Field::Search.name(), "search");
}
