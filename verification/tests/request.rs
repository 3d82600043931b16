use post_listing::error::{Field, ListingError};
use post_listing::request::{normalize, pattern_of, term, Column, Direction, Params};

fn params(page: i32, page_size: i32, sort_by: &str, sort_order: &str, search: Option<&str>) -> Params {
    Params {
        page,
        page_size,
        sort_by: sort_by.to_string(),
        sort_order: sort_order.to_string(),
        search: search.map(|s| s.to_string()),
    }
}

fn rejected(p: &Params, max_page_size: i32) -> ListingError {
    match normalize(p, max_page_size) {
        Ok(spec) => panic!("accepted: {:?}", spec),
        Err(e) => e,
    }
}

#[test]
fn normalize_accepts_a_plain_request() {
    let spec = normalize(&params(2, 10, "title", "asc", None), 100).unwrap();
    assert_eq!(spec.offset(), 20);
    assert_eq!(spec.limit(), 10);
    assert_eq!(spec.sort_column(), Column::Title);
    assert_eq!(spec.sort_direction(), Direction::Ascending);
    assert_eq!(spec.search_term(), None);
}

#[test]
fn offset_is_page_times_page_size() {
    assert_eq!(normalize(&params(0, 25, "id", "asc", None), 100).unwrap().offset(), 0);
    assert_eq!(normalize(&params(1, 25, "id", "asc", None), 100).unwrap().offset(), 25);
    assert_eq!(normalize(&params(7, 13, "id", "asc", None), 100).unwrap().offset(), 91);
}

#[test]
fn offset_of_the_largest_request_does_not_overflow() {
    let spec = normalize(&params(i32::MAX, i32::MAX, "id", "asc", None), i32::MAX).unwrap();
    assert_eq!(spec.limit(), 2147483647);
    assert_eq!(spec.offset(), 4611686014132420609);
}

#[test]
fn negative_page_is_rejected() {
    assert_eq!(
        rejected(&params(-1, 10, "id", "asc", None), 100),
        ListingError::InvalidParameter(Field::Page)
    );
    assert_eq!(
        rejected(&params(i32::MIN, 10, "id", "asc", None), 100),
        ListingError::InvalidParameter(Field::Page)
    );
}

#[test]
fn page_size_must_be_positive() {
    assert_eq!(
        rejected(&params(0, 0, "id", "asc", None), 100),
        ListingError::InvalidParameter(Field::PageSize)
    );
    assert_eq!(
        rejected(&params(0, -5, "id", "asc", None), 100),
        ListingError::InvalidParameter(Field::PageSize)
    );
}

#[test]
fn page_size_is_bounded_by_the_maximum() {
    assert!(normalize(&params(0, 100, "id", "asc", None), 100).is_ok());
    assert!(normalize(&params(0, 1, "id", "asc", None), 100).is_ok());
    assert_eq!(
        rejected(&params(0, 101, "id", "asc", None), 100),
        ListingError::InvalidParameter(Field::PageSize)
    );
    assert_eq!(
        rejected(&params(0, 1, "id", "asc", None), 0),
        ListingError::InvalidParameter(Field::PageSize)
    );
}

#[test]
fn sort_by_outside_the_allow_list_is_rejected() {
    assert_eq!(
        rejected(&params(0, 10, "dropTable", "asc", None), 100),
        ListingError::InvalidParameter(Field::SortBy)
    );
}

#[test]
fn sort_by_is_matched_exactly() {
    for name in ["", "ID", "Id", " id", "id ", "createdAt", "created-at", "id; DROP TABLE posts", "id, title", "posts.id", "1"] {
        assert_eq!(
            rejected(&params(0, 10, name, "asc", None), 100),
            ListingError::InvalidParameter(Field::SortBy),
            "{:?}",
            name
        );
    }
}

#[test]
fn sort_by_names_each_column() {
    let columns = [
        ("id", Column::Id),
        ("title", Column::Title),
        ("content", Column::Content),
        ("created_at", Column::CreatedAt),
    ];
    for (name, column) in columns {
        assert_eq!(normalize(&params(0, 10, name, "asc", None), 100).unwrap().sort_column(), column);
        assert_eq!(Column::parse(name), Some(column));
        assert_eq!(column.name(), name);
    }
}

#[test]
fn sort_order_accepts_both_words_in_any_case() {
    for word in ["asc", "ASC", "Asc", "ascending", "ASCENDING", "aScEnDiNg"] {
        assert_eq!(
            normalize(&params(0, 10, "id", word, None), 100).unwrap().sort_direction(),
            Direction::Ascending,
            "{:?}",
            word
        );
    }
    for word in ["desc", "DESC", "dEsC", "descending", "Descending", "DESCENDING"] {
        assert_eq!(
            normalize(&params(0, 10, "id", word, None), 100).unwrap().sort_direction(),
            Direction::Descending,
            "{:?}",
            word
        );
    }
}

#[test]
fn sort_order_rejects_everything_else() {
    for word in ["", "up", "as", "ascend", "asc ", " desc", "descending;", "de\u{17f}c", "desc--", "1"] {
        assert_eq!(
            rejected(&params(0, 10, "id", word, None), 100),
            ListingError::InvalidParameter(Field::SortOrder),
            "{:?}",
            word
        );
    }
}

#[test]
fn direction_keywords_are_fixed() {
    assert_eq!(Direction::Ascending.keyword(), "ASC");
    assert_eq!(Direction::Descending.keyword(), "DESC");
    assert_eq!(Direction::parse("desc"), Some(Direction::Descending));
    assert_eq!(Direction::parse("down"), None);
}

#[test]
fn the_first_bad_parameter_is_reported() {
    assert_eq!(
        rejected(&params(-1, 0, "nope", "nope", None), 100),
        ListingError::InvalidParameter(Field::Page)
    );
    assert_eq!(
        rejected(&params(0, 0, "nope", "nope", None), 100),
        ListingError::InvalidParameter(Field::PageSize)
    );
    assert_eq!(
        rejected(&params(0, 1, "nope", "nope", None), 100),
        ListingError::InvalidParameter(Field::SortBy)
    );
    assert_eq!(
        rejected(&params(0, 1, "id", "nope", None), 100),
        ListingError::InvalidParameter(Field::SortOrder)
    );
}

#[test]
fn search_is_trimmed() {
    let spec = normalize(&params(0, 10, "id", "asc", Some("  ell \n")), 100).unwrap();
    assert_eq!(spec.search_term(), Some("ell"));
    let spec = normalize(&params(0, 10, "id", "asc", Some("Hello World")), 100).unwrap();
    assert_eq!(spec.search_term(), Some("Hello World"));
}

#[test]
fn blank_search_is_no_filter() {
    for blank in ["", " ", "   ", "\t\n", "\u{3000}"] {
        let spec = normalize(&params(0, 10, "id", "asc", Some(blank)), 100).unwrap();
        assert_eq!(spec.search_term(), None, "{:?}", blank);
    }
    let spec = normalize(&params(0, 10, "id", "asc", None), 100).unwrap();
    assert_eq!(spec.search_term(), None);
}

#[test]
fn term_of_a_search_parameter() {
    assert_eq!(term(&None), None);
    assert_eq!(term(&Some(String::new())), None);
    assert_eq!(term(&Some("  ".to_string())), None);
    assert_eq!(term(&Some(" a ".to_string())), Some("a".to_string()));
    assert_eq!(term(&Some("'; --".to_string())), Some("'; --".to_string()));
}

#[test]
fn pattern_wraps_the_term_in_wildcards() {
    assert_eq!(pattern_of("ell"), "%ell%");
    assert_eq!(pattern_of(""), "%%");
    assert_eq!(pattern_of("50%"), "%50%%");
    assert_eq!(pattern_of("a_b"), "%a_b%");
    assert_eq!(pattern_of("日本"), "%日本%");
}

#[test]
fn a_long_search_is_accepted() {
    let long = "x".repeat(100_000);
    let spec = normalize(&params(0, 10, "id", "asc", Some(&long)), 100).unwrap();
    assert_eq!(spec.search_term(), Some(long.as_str()));
}

#[test]
fn a_search_too_long_to_bind_is_rejected_after_the_other_parameters() {
    let mut p = Params {
        page: 0,
        page_size: 10,
        sort_by: "id".to_string(),
        sort_order: "sideways".to_string(),
        search: Some("x".repeat(i32::MAX as usize - 1)),
    };
    assert_eq!(normalize(&p, 100).unwrap_err(), ListingError::InvalidParameter(Field::SortOrder));
    p.sort_order = "asc".to_string();
    assert_eq!(normalize(&p, 100).unwrap_err(), ListingError::InvalidParameter(Field::Search));
}

#[test]
fn page_len_follows_the_formula() {
    let spec = normalize(&params(2, 10, "id", "asc", None), 100).unwrap();
    assert_eq!(spec.page_len(25), 5);
    assert_eq!(spec.page_len(30), 10);
    assert_eq!(spec.page_len(31), 10);
    assert_eq!(spec.page_len(1000), 10);
    assert_eq!(spec.page_len(21), 1);
    assert_eq!(spec.page_len(20), 0);
    assert_eq!(spec.page_len(7), 0);
    assert_eq!(spec.page_len(0), 0);
}

#[test]
fn page_len_of_extreme_totals() {
    let spec = normalize(&params(i32::MAX, i32::MAX, "id", "asc", None), i32::MAX).unwrap();
    assert_eq!(spec.page_len(i64::MAX), 2147483647);
    assert_eq!(spec.page_len(i64::MIN), 0);
    assert_eq!(spec.page_len(4611686014132420609), 0);
    assert_eq!(spec.page_len(4611686014132420610), 1);
    let first = normalize(&params(0, 10, "id", "asc", None), 100).unwrap();
    assert_eq!(first.page_len(i64::MIN), 0);
    assert_eq!(first.page_len(-1), 0);
    assert_eq!(first.page_len(i64::MAX), 10);
}

#[test]
fn pages_cover_the_total() {
    for total in [0i64, 1, 9, 10, 11, 25, 30] {
        let mut rows = 0;
        for page in 0..5 {
            let spec = normalize(&params(page, 10, "id", "asc", None), 100).unwrap();
            rows += spec.page_len(total);
        }
        assert_eq!(rows, total);
    }
}
