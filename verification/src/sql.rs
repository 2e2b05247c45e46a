//! SQL put together at run time, in the database crate's own query builder.
use crate::ids::Id;
use crate::text::{join, join3};
use sqlx::types::chrono::DateTime;
use vstd::prelude::*;
use vstd::utf8::encode_utf8;

verus! {

/// A query under construction: it is built and run only once the last piece was pushed.
#[verifier::external_body]
pub struct SqlQuery {
    pub builder: sqlx::QueryBuilder<'static, sqlx::Postgres>,
}

/// A value bound to a placeholder.
pub enum Bound {
    Text(Seq<char>),
    Number(i64),
    Flag(bool),
    Id(Id),
    /// A point in time, in microseconds since 1970-01-01 00:00 UTC.
    Instant(i64),
}

/// The text of a query so far.
pub uninterp spec fn query_sql(query: SqlQuery) -> Seq<char>;

/// The values bound so far, the first placeholder's first.
pub uninterp spec fn query_binds(query: SqlQuery) -> Seq<Bound>;

/// Whether a query still takes pieces: it was not built yet.
pub uninterp spec fn query_open(query: SqlQuery) -> bool;

/// A natural number in decimal digits.
pub open spec fn decimal(n: nat) -> Seq<char>
    decreases n,
{
    if n < 10 {
        seq![('0' as int + n) as char]
    } else {
        decimal(n / 10).push(('0' as int + n % 10) as char)
    }
}

/// The placeholder of the value that is bound as number `n`.
pub open spec fn placeholder(n: nat) -> Seq<char> {
    seq!['$'] + decimal(n)
}

/// The points in time that the calendar crate knows, in microseconds since 1970.
pub open spec fn instant_in_range(micros: i64) -> bool {
    -8_334_601_228_800_000_000 <= micros <= 8_210_266_876_799_999_999
}

/// Whether a text is short enough to be bound: its bytes are counted in 31 bits.
pub open spec fn bindable(text: Seq<char>) -> bool {
    encode_utf8(text).len() <= i32::MAX
}

/// `QueryBuilder::new`: the text given, and nothing bound.
#[verifier::external_body]
pub(crate) fn new_query(sql: &str) -> (query: SqlQuery)
    ensures
        query_open(query),
        query_sql(query) == sql@,
        query_binds(query) == Seq::<Bound>::empty(),
{
    SqlQuery { builder: sqlx::QueryBuilder::new(sql) }
}

/// `QueryBuilder::push`: appends text. On a query that was built the call would panic.
#[verifier::external_body]
pub(crate) fn push_sql(query: &mut SqlQuery, sql: &str)
    requires
        query_open(*old(query)),
    ensures
        query_open(*final(query)),
        query_sql(*final(query)) == query_sql(*old(query)) + sql@,
        query_binds(*final(query)) == query_binds(*old(query)),
{
    query.builder.push(sql);
}

/// `QueryBuilder::push_bind` of a text: binds it and appends its placeholder. On a text whose
/// length 31 bits do not hold, and on a query that was built, the call would panic.
#[verifier::external_body]
pub(crate) fn bind_text(query: &mut SqlQuery, value: String)
    requires
        query_open(*old(query)),
        bindable(value@),
    ensures
        query_open(*final(query)),
        query_sql(*final(query)) == query_sql(*old(query)) + placeholder(
            query_binds(*old(query)).len() + 1,
        ),
        query_binds(*final(query)) == query_binds(*old(query)).push(Bound::Text(value@)),
{
    query.builder.push_bind(value);
}

/// `QueryBuilder::push_bind` of a number: binds it and appends its placeholder. On a query that
/// was built the call would panic.
#[verifier::external_body]
pub(crate) fn bind_number(query: &mut SqlQuery, value: i64)
    requires
        query_open(*old(query)),
    ensures
        query_open(*final(query)),
        query_sql(*final(query)) == query_sql(*old(query)) + placeholder(
            query_binds(*old(query)).len() + 1,
        ),
        query_binds(*final(query)) == query_binds(*old(query)).push(Bound::Number(value)),
{
    query.builder.push_bind(value);
}

/// `QueryBuilder::push_bind` of a truth value: binds it and appends its placeholder. On a query that
/// was built the call would panic.
#[verifier::external_body]
pub(crate) fn bind_flag(query: &mut SqlQuery, value: bool)
    requires
        query_open(*old(query)),
    ensures
        query_open(*final(query)),
        query_sql(*final(query)) == query_sql(*old(query)) + placeholder(
            query_binds(*old(query)).len() + 1,
        ),
        query_binds(*final(query)) == query_binds(*old(query)).push(Bound::Flag(value)),
{
    query.builder.push_bind(value);
}

/// `QueryBuilder::push_bind` of a UUID: binds it and appends its placeholder. On a query that
/// was built the call would panic.
#[verifier::external_body]
pub(crate) fn bind_id(query: &mut SqlQuery, value: Id)
    requires
        query_open(*old(query)),
    ensures
        query_open(*final(query)),
        query_sql(*final(query)) == query_sql(*old(query)) + placeholder(
            query_binds(*old(query)).len() + 1,
        ),
        query_binds(*final(query)) == query_binds(*old(query)).push(Bound::Id(value)),
{
    query.builder.push_bind(uuid::Uuid::from_u128(value));
}

/// `QueryBuilder::push_bind` of a point in time, from `DateTime::from_timestamp_micros`: binds it
/// and appends its placeholder. Outside the calendar crate's range there is no such point, and the
/// call would panic, as it would on a query that was built.
#[verifier::external_body]
pub(crate) fn bind_instant(query: &mut SqlQuery, micros: i64)
    requires
        query_open(*old(query)),
        instant_in_range(micros),
    ensures
        query_open(*final(query)),
        query_sql(*final(query)) == query_sql(*old(query)) + placeholder(
            query_binds(*old(query)).len() + 1,
        ),
        query_binds(*final(query)) == query_binds(*old(query)).push(Bound::Instant(micros)),
{
    query.builder.push_bind(DateTime::from_timestamp_micros(micros).unwrap());
}

/// A stretch of a query: text, or a bound value.
pub enum Piece {
    Sql(Seq<char>),
    Bind(Bound),
}

/// The values among `pieces`.
pub open spec fn bounds_of(pieces: Seq<Piece>) -> Seq<Bound>
    decreases pieces.len(),
{
    if pieces.len() == 0 {
        Seq::empty()
    } else {
        match pieces.last() {
            Piece::Sql(_) => bounds_of(pieces.drop_last()),
            Piece::Bind(value) => bounds_of(pieces.drop_last()).push(value),
        }
    }
}

/// The text of `pieces`, with a numbered placeholder in the place of each value.
pub open spec fn sql_of(pieces: Seq<Piece>) -> Seq<char>
    decreases pieces.len(),
{
    if pieces.len() == 0 {
        Seq::empty()
    } else {
        match pieces.last() {
            Piece::Sql(sql) => sql_of(pieces.drop_last()) + sql,
            Piece::Bind(_) => sql_of(pieces.drop_last()) + placeholder(bounds_of(pieces).len()),
        }
    }
}

/// Whether a query is what `pieces` make.
pub open spec fn made_of(query: SqlQuery, pieces: Seq<Piece>) -> bool {
    query_open(query) && query_sql(query) == sql_of(pieces) && query_binds(query) == bounds_of(
        pieces,
    )
}

proof fn lemma_piece_added(pieces: Seq<Piece>, piece: Piece)
    ensures
        bounds_of(pieces.push(piece)) == match piece {
            Piece::Sql(_) => bounds_of(pieces),
            Piece::Bind(value) => bounds_of(pieces).push(value),
        },
        sql_of(pieces.push(piece)) == sql_of(pieces) + match piece {
            Piece::Sql(sql) => sql,
            Piece::Bind(_) => placeholder(bounds_of(pieces).len() + 1),
        },
{
    assert(pieces.push(piece).drop_last() =~= pieces);
}

/// A base query narrowed by conditions, all of which must hold.
pub open spec fn narrowed(base: Seq<char>, conditions: Seq<Seq<Piece>>) -> Seq<Piece>
    decreases conditions.len(),
{
    if conditions.len() == 0 {
        seq![Piece::Sql(base)]
    } else {
        narrowed(base, conditions.drop_last()).push(
            Piece::Sql(
                if conditions.len() == 1 {
                    " WHERE "@
                } else {
                    " AND "@
                },
            ),
        ) + conditions.last()
    }
}

/// A query that conditions are being added to.
pub struct Selection {
    pub query: SqlQuery,
    pub narrowed: bool,
    pub base: Ghost<Seq<char>>,
    pub conditions: Ghost<Seq<Seq<Piece>>>,
}

impl Selection {
    pub open spec fn well_formed(self) -> bool {
        &&& made_of(self.query, narrowed(self.base@, self.conditions@))
        &&& self.narrowed == (self.conditions@.len() > 0)
    }

    pub fn new(base: &str) -> (selection: Selection)
        ensures
            selection.well_formed(),
            selection.base@ == base@,
            selection.conditions@ == Seq::<Seq<Piece>>::empty(),
    {
        let query = new_query(base);
        proof {
            let pieces = narrowed(base@, Seq::empty());
            lemma_piece_added(Seq::empty(), Piece::Sql(base@));
            assert(pieces =~= Seq::<Piece>::empty().push(Piece::Sql(base@)));
            assert(Seq::<char>::empty() + base@ =~= base@);
        }
        Selection {
            query,
            narrowed: false,
            base: Ghost(base@),
            conditions: Ghost(Seq::empty()),
        }
    }

    /// Opens one more condition: what is pushed next is its first piece.
    fn open_condition(&mut self)
        requires
            old(self).well_formed(),
        ensures
            final(self).narrowed,
            final(self).base == old(self).base,
            final(self).conditions@ == old(self).conditions@.push(Seq::<Piece>::empty()),
            final(self).well_formed(),
    {
        if self.narrowed {
            push_sql(&mut self.query, " AND ");
        } else {
            push_sql(&mut self.query, " WHERE ");
            self.narrowed = true;
        }
        proof {
            let before = self.conditions@;
            self.conditions@ = before.push(Seq::empty());
            let pieces = narrowed(self.base@, self.conditions@);
            assert(self.conditions@.drop_last() =~= before);
            assert(pieces.drop_last() =~= narrowed(self.base@, before));
        }
    }

    /// Adds text to the condition that was opened last.
    fn push(&mut self, sql: &str)
        requires
            old(self).well_formed(),
            old(self).conditions@.len() > 0,
        ensures
            final(self).base == old(self).base,
            final(self).narrowed == old(self).narrowed,
            final(self).conditions@ == extended(old(self).conditions@, Piece::Sql(sql@)),
            final(self).well_formed(),
    {
        push_sql(&mut self.query, sql);
        proof {
            lemma_extended(self.base@, self.conditions@, Piece::Sql(sql@));
            self.conditions@ = extended(self.conditions@, Piece::Sql(sql@));
        }
    }

    fn push_text(&mut self, value: String)
        requires
            old(self).well_formed(),
            bindable(value@),
            old(self).conditions@.len() > 0,
        ensures
            final(self).base == old(self).base,
            final(self).narrowed == old(self).narrowed,
            final(self).conditions@ == extended(
                old(self).conditions@,
                Piece::Bind(Bound::Text(value@)),
            ),
            final(self).well_formed(),
    {
        let ghost piece = Piece::Bind(Bound::Text(value@));
        bind_text(&mut self.query, value);
        proof {
            lemma_extended(self.base@, self.conditions@, piece);
            self.conditions@ = extended(self.conditions@, piece);
        }
    }

    /// Adds the condition that `sql` makes of a text.
    pub fn text_condition(&mut self, sql: &str, value: String)
        requires
            old(self).well_formed(),
            bindable(value@),
        ensures
            final(self).base == old(self).base,
            final(self).conditions@ == old(self).conditions@.push(
                seq![Piece::Sql(sql@), Piece::Bind(Bound::Text(value@))],
            ),
            final(self).well_formed(),
    {
        let ghost before = self.conditions@;
        let ghost text = value@;
        self.open_condition();
        self.push(sql);
        self.push_text(value);
        assert(self.conditions@ =~= before.push(
            seq![Piece::Sql(sql@), Piece::Bind(Bound::Text(text))],
        )) by {
            assert(self.conditions@.last() =~= seq![
                Piece::Sql(sql@),
                Piece::Bind(Bound::Text(text)),
            ]);
        }
    }

    /// Adds the condition that `sql` makes of a number.
    pub fn number_condition(&mut self, sql: &str, value: i64)
        requires
            old(self).well_formed(),
        ensures
            final(self).base == old(self).base,
            final(self).conditions@ == old(self).conditions@.push(
                seq![Piece::Sql(sql@), Piece::Bind(Bound::Number(value))],
            ),
            final(self).well_formed(),
    {
        let ghost before = self.conditions@;
        let ghost piece = Piece::Bind(Bound::Number(value));
        self.open_condition();
        self.push(sql);
        bind_number(&mut self.query, value);
        proof {
            lemma_extended(self.base@, self.conditions@, piece);
            self.conditions@ = extended(self.conditions@, piece);
            assert(self.conditions@.last() =~= seq![Piece::Sql(sql@), piece]);
            assert(self.conditions@ =~= before.push(seq![Piece::Sql(sql@), piece]));
        }
    }

    /// Adds the condition that `sql` makes of a truth value.
    pub fn flag_condition(&mut self, sql: &str, value: bool)
        requires
            old(self).well_formed(),
        ensures
            final(self).base == old(self).base,
            final(self).conditions@ == old(self).conditions@.push(
                seq![Piece::Sql(sql@), Piece::Bind(Bound::Flag(value))],
            ),
            final(self).well_formed(),
    {
        let ghost before = self.conditions@;
        let ghost piece = Piece::Bind(Bound::Flag(value));
        self.open_condition();
        self.push(sql);
        bind_flag(&mut self.query, value);
        proof {
            lemma_extended(self.base@, self.conditions@, piece);
            self.conditions@ = extended(self.conditions@, piece);
            assert(self.conditions@.last() =~= seq![Piece::Sql(sql@), piece]);
            assert(self.conditions@ =~= before.push(seq![Piece::Sql(sql@), piece]));
        }
    }

    /// Adds the condition that `sql` makes of an id.
    pub fn id_condition(&mut self, sql: &str, value: Id)
        requires
            old(self).well_formed(),
        ensures
            final(self).base == old(self).base,
            final(self).conditions@ == old(self).conditions@.push(
                seq![Piece::Sql(sql@), Piece::Bind(Bound::Id(value))],
            ),
            final(self).well_formed(),
    {
        let ghost before = self.conditions@;
        let ghost piece = Piece::Bind(Bound::Id(value));
        self.open_condition();
        self.push(sql);
        bind_id(&mut self.query, value);
        proof {
            lemma_extended(self.base@, self.conditions@, piece);
            self.conditions@ = extended(self.conditions@, piece);
            assert(self.conditions@.last() =~= seq![Piece::Sql(sql@), piece]);
            assert(self.conditions@ =~= before.push(seq![Piece::Sql(sql@), piece]));
        }
    }

    /// Adds the condition that `sql` makes of a point in time.
    pub fn instant_condition(&mut self, sql: &str, micros: i64)
        requires
            old(self).well_formed(),
            instant_in_range(micros),
        ensures
            final(self).base == old(self).base,
            final(self).conditions@ == old(self).conditions@.push(
                seq![Piece::Sql(sql@), Piece::Bind(Bound::Instant(micros))],
            ),
            final(self).well_formed(),
    {
        let ghost before = self.conditions@;
        let ghost piece = Piece::Bind(Bound::Instant(micros));
        self.open_condition();
        self.push(sql);
        bind_instant(&mut self.query, micros);
        proof {
            lemma_extended(self.base@, self.conditions@, piece);
            self.conditions@ = extended(self.conditions@, piece);
            assert(self.conditions@.last() =~= seq![Piece::Sql(sql@), piece]);
            assert(self.conditions@ =~= before.push(seq![Piece::Sql(sql@), piece]));
        }
    }

    /// Adds the condition that some column named by `columns` is like `pattern`; `close` ends it.
    pub fn search_condition(&mut self, columns: Vec<&'static str>, pattern: &String, close: &str)
        requires
            old(self).well_formed(),
            bindable(pattern@),
        ensures
            final(self).base == old(self).base,
            final(self).conditions@ == old(self).conditions@.push(
                search_pieces(columns@.map_values(|column: &'static str| column@), pattern@).push(
                    Piece::Sql(close@),
                ),
            ),
            final(self).well_formed(),
    {
        let ghost before = self.conditions@;
        let ghost names = columns@.map_values(|column: &'static str| column@);
        self.open_condition();
        assert(names.take(0) =~= Seq::<Seq<char>>::empty());
        for i in 0..columns.len()
            invariant
                self.well_formed(),
                bindable(pattern@),
                self.base == old(self).base,
                names == columns@.map_values(|column: &'static str| column@),
                self.conditions@ == before.push(search_pieces(names.take(i as int), pattern@)),
        {
            let ghost so_far = search_pieces(names.take(i as int), pattern@);
            self.push(columns[i]);
            self.push_text(pattern.clone());
            proof {
                assert(names.take(i + 1).drop_last() =~= names.take(i as int));
                assert(self.conditions@.last() =~= search_pieces(names.take(i + 1), pattern@));
                assert(self.conditions@ =~= before.push(
                    search_pieces(names.take(i + 1), pattern@),
                ));
            }
        }
        assert(names.take(columns.len() as int) =~= names);
        self.push(close);
        assert(self.conditions@ =~= before.push(
            search_pieces(names, pattern@).push(Piece::Sql(close@)),
        ));
    }

    /// Adds the condition that `sql` makes of a text, where there is one.
    pub fn optional_text(&mut self, sql: &str, value: &Option<String>)
        requires
            old(self).well_formed(),
            value is Some ==> bindable(value->0@),
        ensures
            final(self).base == old(self).base,
            final(self).conditions@ == old(self).conditions@ + given(
                sql@,
                *value,
                |text: String| Bound::Text(text@),
            ),
            final(self).well_formed(),
    {
        let ghost before = self.conditions@;
        let ghost added = given(sql@, *value, |text: String| Bound::Text(text@));
        if let Some(text) = value {
            self.text_condition(sql, text.clone());
        }
        assert(self.conditions@ =~= before + added);
    }

    /// Adds the condition that `sql` makes of a number, where there is one.
    pub fn optional_number(&mut self, sql: &str, value: Option<i64>)
        requires
            old(self).well_formed(),
        ensures
            final(self).base == old(self).base,
            final(self).conditions@ == old(self).conditions@ + given(
                sql@,
                value,
                |number: i64| Bound::Number(number),
            ),
            final(self).well_formed(),
    {
        let ghost before = self.conditions@;
        let ghost added = given(sql@, value, |number: i64| Bound::Number(number));
        if let Some(number) = value {
            self.number_condition(sql, number);
        }
        assert(self.conditions@ =~= before + added);
    }

    /// Adds the condition that `sql` makes of a truth value, where there is one.
    pub fn optional_flag(&mut self, sql: &str, value: Option<bool>)
        requires
            old(self).well_formed(),
        ensures
            final(self).base == old(self).base,
            final(self).conditions@ == old(self).conditions@ + given(
                sql@,
                value,
                |flag: bool| Bound::Flag(flag),
            ),
            final(self).well_formed(),
    {
        let ghost before = self.conditions@;
        let ghost added = given(sql@, value, |flag: bool| Bound::Flag(flag));
        if let Some(flag) = value {
            self.flag_condition(sql, flag);
        }
        assert(self.conditions@ =~= before + added);
    }

    /// Adds the condition that `sql` makes of a point in time, where there is one.
    pub fn optional_instant(&mut self, sql: &str, value: Option<i64>)
        requires
            old(self).well_formed(),
            value is Some ==> instant_in_range(value->0),
        ensures
            final(self).base == old(self).base,
            final(self).conditions@ == old(self).conditions@ + given(
                sql@,
                value,
                |micros: i64| Bound::Instant(micros),
            ),
            final(self).well_formed(),
    {
        let ghost before = self.conditions@;
        let ghost added = given(sql@, value, |micros: i64| Bound::Instant(micros));
        if let Some(micros) = value {
            self.instant_condition(sql, micros);
        }
        assert(self.conditions@ =~= before + added);
    }

    /// Adds the condition that some column named by `columns` holds the term, where there is one.
    pub fn optional_search(
        &mut self,
        columns: Vec<&'static str>,
        term: &Option<String>,
        close: &str,
    )
        requires
            old(self).well_formed(),
            term is Some ==> bindable(pattern_for(term->0@)),
        ensures
            final(self).base == old(self).base,
            final(self).conditions@ == old(self).conditions@ + searched(
                columns@.map_values(|column: &'static str| column@),
                *term,
                close@,
            ),
            final(self).well_formed(),
    {
        let ghost before = self.conditions@;
        let ghost added = searched(
            columns@.map_values(|column: &'static str| column@),
            *term,
            close@,
        );
        if let Some(term) = term {
            let pattern = join3("%", term.as_str(), "%");
            self.search_condition(columns, &pattern, close);
        }
        assert(self.conditions@ =~= before + added);
    }

    /// Ends the query with the order of the rows, how many of them are wanted and how many to
    /// skip.
    pub fn paged(self, column: &str, direction: &str, limit: i64, offset: i64) -> (whole: SqlQuery)
        requires
            self.well_formed(),
        ensures
            made_of(
                whole,
                paged(narrowed(self.base@, self.conditions@), column@, direction@, limit, offset),
            ),
    {
        let ghost pieces = narrowed(self.base@, self.conditions@);
        let mut whole = self.query;
        let order = join(join3(" ORDER BY ", column, " ").as_str(), direction);
        push_sql(&mut whole, order.as_str());
        push_sql(&mut whole, " LIMIT ");
        bind_number(&mut whole, limit);
        push_sql(&mut whole, " OFFSET ");
        bind_number(&mut whole, offset);
        proof {
            let ordered = pieces.push(Piece::Sql(order@));
            let limited = ordered.push(Piece::Sql(" LIMIT "@)).push(
                Piece::Bind(Bound::Number(limit)),
            );
            lemma_piece_added(pieces, Piece::Sql(order@));
            lemma_piece_added(ordered, Piece::Sql(" LIMIT "@));
            lemma_piece_added(
                ordered.push(Piece::Sql(" LIMIT "@)),
                Piece::Bind(Bound::Number(limit)),
            );
            lemma_piece_added(limited, Piece::Sql(" OFFSET "@));
            lemma_piece_added(
                limited.push(Piece::Sql(" OFFSET "@)),
                Piece::Bind(Bound::Number(offset)),
            );
            assert(limited.push(Piece::Sql(" OFFSET "@)).push(Piece::Bind(Bound::Number(offset)))
                =~= paged(pieces, column@, direction@, limit, offset));
        }
        whole
    }
}

/// For each column its text, followed by the pattern that it is held against.
pub open spec fn search_pieces(columns: Seq<Seq<char>>, pattern: Seq<char>) -> Seq<Piece>
    decreases columns.len(),
{
    if columns.len() == 0 {
        Seq::empty()
    } else {
        search_pieces(columns.drop_last(), pattern).push(Piece::Sql(columns.last())).push(
            Piece::Bind(Bound::Text(pattern)),
        )
    }
}

/// The condition that `sql` makes of a value, where there is one.
pub open spec fn given<T>(sql: Seq<char>, value: Option<T>, bound: spec_fn(T) -> Bound) -> Seq<
    Seq<Piece>,
> {
    match value {
        Some(value) => seq![seq![Piece::Sql(sql), Piece::Bind(bound(value))]],
        None => Seq::empty(),
    }
}

/// The pattern that a text with the term in it is like.
pub open spec fn pattern_for(term: Seq<char>) -> Seq<char> {
    "%"@ + term + "%"@
}

/// The condition that one of the columns holds the term, where there is one.
pub open spec fn searched(
    columns: Seq<Seq<char>>,
    term: Option<String>,
    close: Seq<char>,
) -> Seq<Seq<Piece>> {
    match term {
        Some(term) => seq![
            search_pieces(columns, pattern_for(term@)).push(Piece::Sql(close)),
        ],
        None => Seq::empty(),
    }
}

/// `conditions` with one more piece at the end of the last of them.
pub open spec fn extended(conditions: Seq<Seq<Piece>>, piece: Piece) -> Seq<Seq<Piece>> {
    conditions.drop_last().push(conditions.last().push(piece))
}

proof fn lemma_extended(base: Seq<char>, conditions: Seq<Seq<Piece>>, piece: Piece)
    requires
        conditions.len() > 0,
    ensures
        narrowed(base, extended(conditions, piece)) == narrowed(base, conditions).push(piece),
        narrowed(base, conditions).push(piece).drop_last() == narrowed(base, conditions),
{
    assert(extended(conditions, piece).drop_last() =~= conditions.drop_last());
    assert(narrowed(base, extended(conditions, piece)) =~= narrowed(base, conditions).push(piece));
    assert(narrowed(base, conditions).push(piece).drop_last() =~= narrowed(base, conditions));
}

/// `pieces` followed by the order of the rows, how many of them are wanted and how many to skip.
pub open spec fn paged(
    pieces: Seq<Piece>,
    column: Seq<char>,
    direction: Seq<char>,
    limit: i64,
    offset: i64,
) -> Seq<Piece> {
    pieces + seq![
        Piece::Sql(" ORDER BY "@ + column + " "@ + direction),
        Piece::Sql(" LIMIT "@),
        Piece::Bind(Bound::Number(limit)),
        Piece::Sql(" OFFSET "@),
        Piece::Bind(Bound::Number(offset)),
    ]
}

} // verus!
