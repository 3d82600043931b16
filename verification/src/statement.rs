//! The two statements of a listing: one that fetches a page of rows, one that counts the
//! rows that match. Both are built over the same predicate, and neither holds a character
//! of the caller's text: the search term is bound, the sort is written from fixed words.

use crate::request::{like_pattern, pattern_of, Column, Direction, QuerySpec, QueryView};
use vstd::prelude::*;
use vstd::utf8::encode_utf8;

verus! {

/// A value that is bound to a placeholder of a statement.
pub enum Bind {
    Text(Seq<char>),
    Integer(int),
}

/// A statement for the store: its text, with a placeholder for each bound value, and the
/// values. It holds the `sqlx::QueryBuilder` that built it, and the caller runs the
/// statement through `builder`. Nothing is known of a `Statement` but what
/// `statement_text` and `statement_binds` say.
#[verifier::external_body]
pub struct Statement {
    pub builder: sqlx::QueryBuilder<'static, sqlx::Postgres>,
}

/// The text of the statement, as `QueryBuilder::sql` returns it.
pub uninterp spec fn statement_text(s: Statement) -> Seq<char>;

/// The values that were bound to the statement, in the order of their placeholders; `None`
/// once the builder has handed its arguments to a query.
pub uninterp spec fn statement_binds(s: Statement) -> Option<Seq<Bind>>;

/// The placeholder of the `n`-th bound value, for `n` from 1 to 9: `$1` to `$9`.
pub open spec fn placeholder(n: nat) -> Seq<char> {
    seq!['$', (('0' as nat) + n) as char]
}

/// `sqlx::QueryBuilder::new`: a builder whose text is `init` and that holds no bound
/// value yet.
#[verifier::external_body]
fn builder_new(init: &str) -> (s: Statement)
    ensures
        statement_text(s) == init@,
        statement_binds(s) == Some(Seq::<Bind>::empty()),
{
    Statement { builder: sqlx::QueryBuilder::new(init) }
}

/// `sqlx::QueryBuilder::push`: appends `sql` to the text as it is and leaves the bound
/// values alone. The builder panics once its arguments were taken.
#[verifier::external_body]
fn builder_push(s: &mut Statement, sql: &str)
    requires
        statement_binds(*old(s)) is Some,
    ensures
        statement_text(*final(s)) == statement_text(*old(s)) + sql@,
        statement_binds(*final(s)) == statement_binds(*old(s)),
{
    s.builder.push(sql);
}

/// `sqlx::QueryBuilder::push_bind` with a `String`, for a builder of fewer than 9 values:
/// adds `value` to the bound values and appends its placeholder, `$` and the new number of
/// values, to the text. The builder panics once its arguments were taken, and where the
/// value's bytes cannot be counted in an `i32`.
#[verifier::external_body]
fn builder_push_bind_text(s: &mut Statement, value: String)
    requires
        statement_binds(*old(s)) is Some,
        statement_binds(*old(s))->0.len() < 9,
        encode_utf8(value@).len() <= i32::MAX,
    ensures
        statement_text(*final(s)) == statement_text(*old(s)) + placeholder(
            statement_binds(*old(s))->0.len() + 1,
        ),
        statement_binds(*final(s)) == Some(statement_binds(*old(s))->0.push(Bind::Text(value@))),
{
    s.builder.push_bind(value);
}

/// `sqlx::QueryBuilder::push_bind` with an `i64`, for a builder of fewer than 9 values:
/// adds `value` to the bound values and appends its placeholder, `$` and the new number of
/// values, to the text. The builder panics once its arguments were taken.
#[verifier::external_body]
fn builder_push_bind_integer(s: &mut Statement, value: i64)
    requires
        statement_binds(*old(s)) is Some,
        statement_binds(*old(s))->0.len() < 9,
    ensures
        statement_text(*final(s)) == statement_text(*old(s)) + placeholder(
            statement_binds(*old(s))->0.len() + 1,
        ),
        statement_binds(*final(s)) == Some(
            statement_binds(*old(s))->0.push(Bind::Integer(value as int)),
        ),
{
    s.builder.push_bind(value);
}

/// The columns that a search term is matched against, in the order of their comparisons.
pub open spec fn searched() -> Seq<Column> {
    seq![Column::Id, Column::Title, Column::Content, Column::CreatedAt]
}

impl Column {
    /// Whether the column holds text. The others are compared by their rendering as text.
    pub open spec fn holds_text(self) -> bool {
        self == Column::Title || self == Column::Content
    }

    /// The left side of the column's comparison with the pattern.
    pub open spec fn operand_text(self) -> Seq<char> {
        " "@ + self.name_text() + if self.holds_text() {
            " "@
        } else {
            "::text "@
        }
    }

    /// Tells whether the column holds text.
    pub fn is_text(self) -> (b: bool)
        ensures
            b == self.holds_text(),
    {
        match self {
            Column::Title => true,
            Column::Content => true,
            Column::Id => false,
            Column::CreatedAt => false,
        }
    }
}

/// The comparison of the `k`-th searched column with the pattern, without regard to case,
/// after ` OR ` where it is not the first.
pub open spec fn comparison(k: nat) -> Seq<char> {
    (if k > 0 {
        " OR "@
    } else {
        Seq::<char>::empty()
    }) + searched()[k as int].operand_text() + " ILIKE "@ + placeholder(k + 1)
}

/// The comparisons of the first `n` searched columns, joined by ` OR `.
pub open spec fn disjunction(n: nat) -> Seq<char>
    decreases n,
{
    if n == 0 {
        Seq::<char>::empty()
    } else {
        disjunction((n - 1) as nat) + comparison((n - 1) as nat)
    }
}

/// The text of the predicate: nothing where the listing is not filtered, else ` WHERE `
/// and one comparison for each searched column.
pub open spec fn predicate_text(filtered: bool) -> Seq<char> {
    if filtered {
        " WHERE "@ + disjunction(searched().len())
    } else {
        Seq::<char>::empty()
    }
}

/// The values that the predicate binds: the pattern of the term, once for each searched
/// column.
pub open spec fn predicate_binds(term: Option<Seq<char>>) -> Seq<Bind> {
    match term {
        Some(t) => Seq::new(searched().len(), |k: int| Bind::Text(like_pattern(t))),
        None => Seq::<Bind>::empty(),
    }
}

/// The number of values that the predicate binds.
pub open spec fn predicate_binds_len(filtered: bool) -> nat {
    if filtered {
        searched().len()
    } else {
        0
    }
}

/// The text that sorts the rows.
pub open spec fn sort_text(column: Column, direction: Direction) -> Seq<char> {
    " ORDER BY "@ + column.name_text() + " "@ + direction.keyword_text()
}

/// The text that cuts the page out of the sorted rows, in a statement that binds `bound`
/// values before: the limit and the offset are the next two.
pub open spec fn page_text(bound: nat) -> Seq<char> {
    " LIMIT "@ + placeholder(bound + 1) + " OFFSET "@ + placeholder(bound + 2)
}

/// The text of the statement that fetches a page: all columns of the posts, the predicate,
/// the sort, the page. It depends on the search term only in whether there is one.
pub open spec fn listing_text(filtered: bool, column: Column, direction: Direction) -> Seq<char> {
    "SELECT * FROM posts "@ + predicate_text(filtered) + sort_text(column, direction) + page_text(
        predicate_binds_len(filtered),
    )
}

/// The values that the statement that fetches a page binds: those of the predicate, the
/// limit, the offset.
pub open spec fn listing_binds(q: QueryView) -> Seq<Bind> {
    predicate_binds(q.search_term) + seq![Bind::Integer(q.limit), Bind::Integer(q.offset)]
}

/// The text of the statement that counts the matching rows: the count of the posts and the
/// predicate.
pub open spec fn count_text(filtered: bool) -> Seq<char> {
    "SELECT COUNT(*) FROM posts  "@ + predicate_text(filtered)
}

/// The values that the statement that counts binds: those of the predicate.
pub open spec fn count_binds(q: QueryView) -> Seq<Bind> {
    predicate_binds(q.search_term)
}

/// Appends the predicate of `spec` to a statement that binds nothing yet.
fn push_predicate(s: &mut Statement, spec: &QuerySpec)
    requires
        statement_binds(*old(s)) == Some(Seq::<Bind>::empty()),
    ensures
        statement_text(*final(s)) == statement_text(*old(s)) + predicate_text(
            spec@.search_term is Some,
        ),
        statement_binds(*final(s)) == Some(predicate_binds(spec@.search_term)),
{
    proof {
        use_type_invariant(spec);
    }
    let ghost before = statement_text(*s);
    match spec.search_term() {
        None => {
        },
        Some(term) => {
            builder_push(s, " WHERE ");
            let columns = [Column::Id, Column::Title, Column::Content, Column::CreatedAt];
            let mut k: usize = 0;
            while k < columns.len()
                invariant
                    k <= columns@.len(),
                    columns@ == searched(),
                    spec@.wf(),
                    spec@.search_term == Some(term@),
                    statement_text(*s) == before + " WHERE "@ + disjunction(k as nat),
                    statement_binds(*s) == Some(
                        Seq::new(k as nat, |i: int| Bind::Text(like_pattern(term@))),
                    ),
                decreases columns@.len() - k,
            {
                let ghost text = statement_text(*s);
                let column = columns[k];
                if k > 0 {
                    builder_push(s, " OR ");
                }
                builder_push(s, " ");
                builder_push(s, column.name());
                if column.is_text() {
                    builder_push(s, " ");
                } else {
                    builder_push(s, "::text ");
                }
                builder_push(s, " ILIKE ");
                builder_push_bind_text(s, pattern_of(term));
                assert(statement_text(*s) == text + comparison(k as nat));
                k += 1;
            }
        },
    }
}

/// The statement that fetches the page of `spec`.
pub fn listing_statement(spec: &QuerySpec) -> (s: Statement)
    ensures
        statement_text(s) == listing_text(
            spec@.search_term is Some,
            spec@.sort_column,
            spec@.sort_direction,
        ),
        statement_binds(s) == Some(listing_binds(spec@)),
{
    let mut s = builder_new("SELECT * FROM posts ");
    push_predicate(&mut s, spec);
    builder_push(&mut s, " ORDER BY ");
    builder_push(&mut s, spec.sort_column().name());
    builder_push(&mut s, " ");
    builder_push(&mut s, spec.sort_direction().keyword());
    builder_push(&mut s, " LIMIT ");
    builder_push_bind_integer(&mut s, spec.limit());
    builder_push(&mut s, " OFFSET ");
    builder_push_bind_integer(&mut s, spec.offset());
    s
}

/// The statement that counts the rows that match `spec`.
pub fn count_statement(spec: &QuerySpec) -> (s: Statement)
    ensures
        statement_text(s) == count_text(spec@.search_term is Some),
        statement_binds(s) == Some(count_binds(spec@)),
{
    let mut s = builder_new("SELECT COUNT(*) FROM posts  ");
    push_predicate(&mut s, spec);
    s
}

/// Both statements of a request carry one predicate: after its head, each text goes on
/// with the same predicate text, and the values that the predicate binds are all that the
/// counting statement binds and the first that the fetching statement binds.
pub proof fn lemma_shared_predicate(q: QueryView)
    ensures
        ({
            let filtered = q.search_term is Some;
            &&& listing_text(filtered, q.sort_column, q.sort_direction)
                == "SELECT * FROM posts "@ + predicate_text(filtered) + (sort_text(
                q.sort_column,
                q.sort_direction,
            ) + page_text(predicate_binds_len(filtered)))
            &&& count_text(filtered) == "SELECT COUNT(*) FROM posts  "@ + predicate_text(filtered)
            &&& count_binds(q) == predicate_binds(q.search_term)
            &&& listing_binds(q).take(predicate_binds_len(filtered) as int) == predicate_binds(
                q.search_term,
            )
        }),
{
}

/// The statement that counts knows nothing of the page or the sort: two query
/// specifications with the same search term count with the same text and the same values.
pub proof fn lemma_count_ignores_page(a: QueryView, b: QueryView)
    requires
        a.search_term == b.search_term,
    ensures
        count_text(a.search_term is Some) == count_text(b.search_term is Some),
        count_binds(a) == count_binds(b),
{
}

/// The text of a statement does not depend on what is searched for: two query
/// specifications that both filter, or both do not, and sort alike have the same texts.
pub proof fn lemma_text_ignores_term(a: QueryView, b: QueryView)
    requires
        a.search_term is Some == b.search_term is Some,
        a.sort_column == b.sort_column,
        a.sort_direction == b.sort_direction,
    ensures
        listing_text(a.search_term is Some, a.sort_column, a.sort_direction) == listing_text(
            b.search_term is Some,
            b.sort_column,
            b.sort_direction,
        ),
        count_text(a.search_term is Some) == count_text(b.search_term is Some),
{
}

} // verus!
