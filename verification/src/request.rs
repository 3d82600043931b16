//! From the raw parameters of a request to a validated query specification.

use crate::error::{Field, ListingError};
use crate::text::{
    eq_ignore_ascii_case, lemma_encode_concat, lemma_trim_encoding, lemma_trim_idempotent, same,
    same_ignoring_ascii_case, trim, trimmed,
};
use vstd::math::{max, min};
use vstd::prelude::*;
use vstd::utf8::{encode_scalar, encode_utf8};

verus! {

/// A column of the posts table. These four are both the columns that a listing can be
/// sorted by and the columns that a search term is matched against.
#[derive(Clone, Copy, Debug, PartialEq, Eq, Structural)]
pub enum Column {
    Id,
    Title,
    Content,
    CreatedAt,
}

/// The direction of the sort.
#[derive(Clone, Copy, Debug, PartialEq, Eq, Structural)]
pub enum Direction {
    Ascending,
    Descending,
}

/// The parameters of a request as the caller sent them, unchecked.
#[derive(Debug)]
pub struct Params {
    /// The index of the page, counted from 0.
    pub page: i32,
    /// The number of rows on a page.
    pub page_size: i32,
    /// The name of the column to sort by.
    pub sort_by: String,
    /// The direction of the sort, as a word.
    pub sort_order: String,
    /// The text to search for; absent or blank for no filter.
    pub search: Option<String>,
}

/// What `Params` holds, as mathematical values.
pub struct ParamsView {
    pub page: int,
    pub page_size: int,
    pub sort_by: Seq<char>,
    pub sort_order: Seq<char>,
    pub search: Option<Seq<char>>,
}

/// A validated query specification: every value in it is safe to build a statement from.
#[derive(Debug)]
pub struct QuerySpec {
    offset: i64,
    limit: i64,
    sort_column: Column,
    sort_direction: Direction,
    search_term: Option<String>,
}

/// What `QuerySpec` holds, as mathematical values.
pub struct QueryView {
    /// The number of rows to skip.
    pub offset: int,
    /// The largest number of rows to return.
    pub limit: int,
    pub sort_column: Column,
    pub sort_direction: Direction,
    /// The trimmed text to search for, if the listing is filtered.
    pub search_term: Option<Seq<char>>,
}

/// The value that is bound for a search term: the term between two `%` wildcards.
pub open spec fn like_pattern(term: Seq<char>) -> Seq<char> {
    seq!['%'] + term + seq!['%']
}

/// Whether the pattern of `term` can be sent as one bound value: a value's bytes are
/// counted in a signed 32-bit length.
pub open spec fn bindable(term: Seq<char>) -> bool {
    encode_utf8(like_pattern(term)).len() <= i32::MAX
}

/// Whether a `search` parameter is too long for any pattern made of it to be bound.
pub open spec fn too_long(search: Seq<char>) -> bool {
    encode_utf8(search).len() > i32::MAX - 2
}

/// The search term that a `search` parameter stands for: the trimmed text, or none where
/// the parameter is absent or blank.
pub open spec fn term_of(search: Option<Seq<char>>) -> Option<Seq<char>> {
    match search {
        Some(s) => if trim(s).len() > 0 {
            Some(trim(s))
        } else {
            None
        },
        None => None,
    }
}

/// The number of rows on the page that begins after `offset` rows and holds up to `limit`,
/// where `total` rows match in all.
pub open spec fn page_len(offset: int, limit: int, total: int) -> int {
    min(limit, max(0, total - offset))
}

impl Column {
    /// The column's name in the table.
    pub open spec fn name_text(self) -> Seq<char> {
        match self {
            Column::Id => "id"@,
            Column::Title => "title"@,
            Column::Content => "content"@,
            Column::CreatedAt => "created_at"@,
        }
    }

    /// The column that `name` names, if it is one of the four.
    pub open spec fn named(name: Seq<char>) -> Option<Column> {
        if name == "id"@ {
            Some(Column::Id)
        } else if name == "title"@ {
            Some(Column::Title)
        } else if name == "content"@ {
            Some(Column::Content)
        } else if name == "created_at"@ {
            Some(Column::CreatedAt)
        } else {
            None
        }
    }

    /// The column's name in the table.
    pub fn name(self) -> (s: &'static str)
        ensures
            s@ == self.name_text(),
    {
        match self {
            Column::Id => "id",
            Column::Title => "title",
            Column::Content => "content",
            Column::CreatedAt => "created_at",
        }
    }

    /// The column that `name` names, if it is one of the four.
    pub fn parse(name: &str) -> (c: Option<Column>)
        ensures
            c == Column::named(name@),
    {
        if same(name, "id") {
            Some(Column::Id)
        } else if same(name, "title") {
            Some(Column::Title)
        } else if same(name, "content") {
            Some(Column::Content)
        } else if same(name, "created_at") {
            Some(Column::CreatedAt)
        } else {
            None
        }
    }
}

impl Direction {
    /// The keyword that stands for the direction in a statement.
    pub open spec fn keyword_text(self) -> Seq<char> {
        match self {
            Direction::Ascending => "ASC"@,
            Direction::Descending => "DESC"@,
        }
    }

    /// The direction that `word` names: `asc` or `ascending`, `desc` or `descending`, in
    /// any mix of upper and lower case.
    pub open spec fn named(word: Seq<char>) -> Option<Direction> {
        if eq_ignore_ascii_case(word, "asc"@) || eq_ignore_ascii_case(word, "ascending"@) {
            Some(Direction::Ascending)
        } else if eq_ignore_ascii_case(word, "desc"@) || eq_ignore_ascii_case(
            word,
            "descending"@,
        ) {
            Some(Direction::Descending)
        } else {
            None
        }
    }

    /// The keyword that stands for the direction in a statement.
    pub fn keyword(self) -> (s: &'static str)
        ensures
            s@ == self.keyword_text(),
    {
        match self {
            Direction::Ascending => "ASC",
            Direction::Descending => "DESC",
        }
    }

    /// The direction that `word` names, if it names one.
    pub fn parse(word: &str) -> (d: Option<Direction>)
        ensures
            d == Direction::named(word@),
    {
        if same_ignoring_ascii_case(word, "asc") || same_ignoring_ascii_case(word, "ascending") {
            Some(Direction::Ascending)
        } else if same_ignoring_ascii_case(word, "desc") || same_ignoring_ascii_case(
            word,
            "descending",
        ) {
            Some(Direction::Descending)
        } else {
            None
        }
    }
}

impl View for Params {
    type V = ParamsView;

    open spec fn view(&self) -> ParamsView {
        ParamsView {
            page: self.page as int,
            page_size: self.page_size as int,
            sort_by: self.sort_by@,
            sort_order: self.sort_order@,
            search: self.search.deep_view(),
        }
    }
}

impl QueryView {
    /// What holds of every validated query specification: the limit is at least 1, the
    /// offset is that of a page, and a search term is trimmed, not empty, and can be bound.
    pub open spec fn wf(self) -> bool {
        &&& 1 <= self.limit <= i32::MAX
        &&& 0 <= self.offset <= i32::MAX * self.limit
        &&& self.offset % self.limit == 0
        &&& self.search_term matches Some(term) ==> {
            &&& term.len() > 0
            &&& trim(term) == term
            &&& bindable(term)
        }
    }
}

/// What validation makes of a request, where pages may hold up to `max_page_size` rows: the
/// query specification, or the first parameter, in the order page, pageSize, sortBy,
/// sortOrder, search, that is not acceptable.
pub open spec fn outcome(p: ParamsView, max_page_size: int) -> Result<QueryView, ListingError> {
    if p.page < 0 {
        Err(ListingError::InvalidParameter(Field::Page))
    } else if p.page_size < 1 || p.page_size > max_page_size {
        Err(ListingError::InvalidParameter(Field::PageSize))
    } else if Column::named(p.sort_by) is None {
        Err(ListingError::InvalidParameter(Field::SortBy))
    } else if Direction::named(p.sort_order) is None {
        Err(ListingError::InvalidParameter(Field::SortOrder))
    } else if p.search matches Some(s) && too_long(s) {
        Err(ListingError::InvalidParameter(Field::Search))
    } else {
        Ok(
            QueryView {
                offset: p.page * p.page_size,
                limit: p.page_size,
                sort_column: Column::named(p.sort_by)->0,
                sort_direction: Direction::named(p.sort_order)->0,
                search_term: term_of(p.search),
            },
        )
    }
}

/// The pattern that is bound for `term`: the term between two `%` wildcards.
pub fn pattern_of(term: &str) -> (pattern: String)
    ensures
        pattern@ == like_pattern(term@),
{
    let mut pattern = "%".to_owned();
    pattern.append(term);
    pattern.append("%");
    proof {
        reveal_strlit("%");
        assert(pattern@ == like_pattern(term@));
    }
    pattern
}

impl View for QuerySpec {
    type V = QueryView;

    closed spec fn view(&self) -> QueryView {
        QueryView {
            offset: self.offset as int,
            limit: self.limit as int,
            sort_column: self.sort_column,
            sort_direction: self.sort_direction,
            search_term: self.search_term.deep_view(),
        }
    }
}

impl QuerySpec {
    /// Every query specification is well-formed.
    #[verifier::type_invariant]
    pub open spec fn valid(self) -> bool {
        self@.wf()
    }

    /// The number of rows to skip.
    pub fn offset(&self) -> (n: i64)
        ensures
            n == self@.offset,
    {
        self.offset
    }

    /// The largest number of rows to return.
    pub fn limit(&self) -> (n: i64)
        ensures
            n == self@.limit,
    {
        self.limit
    }

    /// The column to sort by.
    pub fn sort_column(&self) -> (c: Column)
        ensures
            c == self@.sort_column,
    {
        self.sort_column
    }

    /// The direction of the sort.
    pub fn sort_direction(&self) -> (d: Direction)
        ensures
            d == self@.sort_direction,
    {
        self.sort_direction
    }

    /// The text to search for, if the listing is filtered.
    pub fn search_term(&self) -> (t: Option<&str>)
        ensures
            match t {
                Some(s) => self@.search_term == Some(s@),
                None => self@.search_term is None,
            },
    {
        match &self.search_term {
            Some(s) => Some(s.as_str()),
            None => None,
        }
    }

    /// The number of rows that the page holds where `total` rows match in all.
    pub fn page_len(&self, total: i64) -> (n: i64)
        ensures
            n == page_len(self@.offset, self@.limit, total as int),
    {
        proof {
            use_type_invariant(self);
        }
        if total <= self.offset {
            0
        } else if total - self.offset < self.limit {
            total - self.offset
        } else {
            self.limit
        }
    }
}

/// The search term that a `search` parameter stands for.
pub fn term(search: &Option<String>) -> (t: Option<String>)
    ensures
        t.deep_view() == term_of(search.deep_view()),
{
    match search {
        Some(given) => {
            let t = trimmed(given.as_str());
            if t.as_str().is_empty() {
                None
            } else {
                Some(t)
            }
        },
        None => None,
    }
}

/// A pattern is two bytes longer than its term.
pub proof fn lemma_pattern_encoding(term: Seq<char>)
    ensures
        encode_utf8(like_pattern(term)).len() == encode_utf8(term).len() + 2,
{
    let wildcard = seq!['%'];
    lemma_encode_concat(wildcard + term, wildcard);
    lemma_encode_concat(wildcard, term);
    assert(encode_utf8(wildcard).len() == 1) by {
        assert(wildcard.drop_first() == Seq::<char>::empty());
        assert(encode_utf8(wildcard) == encode_scalar('%' as u32) + encode_utf8(
            wildcard.drop_first(),
        ));
    }
}

/// The term of a `search` parameter that is not too long can be bound.
pub proof fn lemma_term_bindable(search: Seq<char>)
    requires
        !too_long(search),
    ensures
        bindable(trim(search)),
{
    lemma_trim_encoding(search);
    lemma_pattern_encoding(trim(search));
}

/// Validates the parameters of a request, where pages may hold up to `max_page_size` rows:
/// the query specification, or the first parameter that is not acceptable.
pub fn normalize(params: &Params, max_page_size: i32) -> (r: Result<QuerySpec, ListingError>)
    ensures
        match r {
            Ok(q) => outcome(params@, max_page_size as int) == Ok::<QueryView, ListingError>(q@),
            Err(e) => outcome(params@, max_page_size as int) == Err::<QueryView, ListingError>(e),
        },
{
    if params.page < 0 {
        return Err(ListingError::InvalidParameter(Field::Page));
    }
    if params.page_size < 1 || params.page_size > max_page_size {
        return Err(ListingError::InvalidParameter(Field::PageSize));
    }
    let sort_column = match Column::parse(params.sort_by.as_str()) {
        Some(c) => c,
        None => {
            return Err(ListingError::InvalidParameter(Field::SortBy));
        },
    };
    let sort_direction = match Direction::parse(params.sort_order.as_str()) {
        Some(d) => d,
        None => {
            return Err(ListingError::InvalidParameter(Field::SortOrder));
        },
    };
    if let Some(given) = &params.search {
        if given.as_str().as_bytes().len() > (i32::MAX - 2) as usize {
            return Err(ListingError::InvalidParameter(Field::Search));
        }
    }
    let search_term = term(&params.search);
    let page = params.page as i64;
    let limit = params.page_size as i64;
    proof {
        if params.search is Some {
            lemma_trim_idempotent(params.search->0@);
            lemma_term_bindable(params.search->0@);
        }
        assert(0 <= page * limit <= i32::MAX * limit <= i32::MAX * i32::MAX && (page * limit) % (
        limit as int) == 0) by (nonlinear_arith)
            requires
                0 <= page <= i32::MAX,
                1 <= limit <= i32::MAX,
        ;
    }
    Ok(QuerySpec { offset: page * limit, limit, sort_column, sort_direction, search_term })
}

/// What passes validation is well-formed.
pub proof fn lemma_outcome_wf(p: ParamsView, max_page_size: int)
    requires
        -0x8000_0000 <= p.page <= i32::MAX,
        max_page_size <= i32::MAX,
    ensures
        outcome(p, max_page_size) matches Ok(q) ==> q.wf(),
{
    if outcome(p, max_page_size) is Ok {
        let limit = p.page_size;
        assert(0 <= p.page * limit <= i32::MAX * limit && (p.page * limit) % limit == 0)
            by (nonlinear_arith)
            requires
                0 <= p.page <= i32::MAX,
                1 <= limit,
        ;
        if let Some(s) = p.search {
            lemma_trim_idempotent(s);
            lemma_term_bindable(s);
        }
    }
}

/// A request whose page and page size are acceptable and whose `sortBy` is not the name of
/// a column is rejected for its `sortBy`, whatever else it holds.
pub proof fn lemma_unlisted_sort_rejected(p: ParamsView, max_page_size: int)
    requires
        0 <= p.page,
        1 <= p.page_size <= max_page_size,
        p.sort_by != "id"@,
        p.sort_by != "title"@,
        p.sort_by != "content"@,
        p.sort_by != "created_at"@,
    ensures
        outcome(p, max_page_size) == Err::<QueryView, ListingError>(
            ListingError::InvalidParameter(Field::SortBy),
        ),
{
}

} // verus!
