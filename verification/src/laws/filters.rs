//! Which rows a list shows: what the conditions of its query mean.
use crate::handlers::listings::{
    order_column, order_conditions, order_texts_fit, product_column, product_conditions,
    product_texts_fit,
};
use crate::ids::{uuid_text, Id};
use crate::models::{
    ListingParams, OrderListingParams, OrderStatus, ProductShown, ProductStatus, Role, TokenClaims,
};
use crate::sql::{
    bounds_of, given, made_of, narrowed, paged, pattern_for, placeholder, query_binds, query_sql,
    search_pieces, searched, sql_of, Bound, Piece, SqlQuery,
};
use vstd::prelude::*;
use vstd::utf8::encode_utf8;

verus! {

/// Whether a text is like a pattern, as the database has it.
pub type Like = spec_fn(Seq<char>, Seq<char>) -> bool;

/// The label that a status is stored as.
pub open spec fn stored_status(status: ProductStatus) -> Seq<char> {
    match status {
        ProductStatus::Available => "Available"@,
        ProductStatus::Reserved => "Reserved"@,
        ProductStatus::Sold => "Sold"@,
        ProductStatus::Archived => "Archived"@,
    }
}

/// What a comparison with a value means for a product.
pub open spec fn product_compares(row: ProductShown, sql: Seq<char>, value: Bound) -> bool {
    ||| sql == "gender = "@ && value == Bound::Text(row.gender@)
    ||| sql == "category = "@ && value == Bound::Text(row.category@)
    ||| sql == "condition = "@ && value == Bound::Text(row.condition@)
    ||| sql == "status = "@ && value == Bound::Text(stored_status(row.status))
    ||| sql == "price >= "@ && (value matches Bound::Number(least) && row.price >= least)
    ||| sql == "price <= "@ && (value matches Bound::Number(most) && row.price <= most)
    ||| sql == "on_sale = "@ && value == Bound::Flag(row.on_sale)
}

/// What a condition means for a product: a comparison, or that the name or the description is like a
/// pattern.
pub open spec fn product_meets(row: ProductShown, condition: Seq<Piece>, like: Like) -> bool {
    if condition.len() == 2 {
        match (condition[0], condition[1]) {
            (Piece::Sql(sql), Piece::Bind(value)) => product_compares(row, sql, value),
            _ => false,
        }
    } else {
        &&& condition.len() == 5
        &&& condition[0] == Piece::Sql("(name ILIKE "@)
        &&& condition[2] == Piece::Sql(" OR description ILIKE "@)
        &&& condition[4] == Piece::Sql(")"@)
        &&& match (condition[1], condition[3]) {
            (Piece::Bind(Bound::Text(one)), Piece::Bind(Bound::Text(other))) => like(
                row.name@,
                one,
            ) || like(row.description@, other),
            _ => false,
        }
    }
}

/// Whether a product meets every condition.
pub open spec fn product_meets_all(
    row: ProductShown,
    conditions: Seq<Seq<Piece>>,
    like: Like,
) -> bool {
    forall|i: int| 0 <= i < conditions.len() ==> product_meets(row, #[trigger] conditions[i], like)
}

/// Whether a product is one that was asked for: it passes every filter that was given.
pub open spec fn product_wanted(row: ProductShown, params: ListingParams, like: Like) -> bool {
    &&& params.gender matches Some(gender) ==> row.gender@ == gender@
    &&& params.category matches Some(category) ==> row.category@ == category@
    &&& params.condition matches Some(condition) ==> row.condition@ == condition@
    &&& params.status matches Some(status) ==> row.status == status
    &&& params.price_min matches Some(least) ==> least <= row.price
    &&& params.price_max matches Some(most) ==> row.price <= most
    &&& params.on_sale matches Some(on_sale) ==> row.on_sale == on_sale
    &&& params.search matches Some(term) ==> like(row.name@, "%"@ + term@ + "%"@) || like(
        row.description@,
        "%"@ + term@ + "%"@,
    )
}

proof fn lemma_products_joined(
    row: ProductShown,
    left: Seq<Seq<Piece>>,
    right: Seq<Seq<Piece>>,
    like: Like,
)
    ensures
        product_meets_all(row, left + right, like) == (product_meets_all(row, left, like)
            && product_meets_all(row, right, like)),
{
    let both = left + right;
    if product_meets_all(row, both, like) {
        assert forall|i: int| 0 <= i < left.len() implies product_meets(
            row,
            #[trigger] left[i],
            like,
        ) by {
            assert(both[i] == left[i]);
        }
        assert forall|i: int| 0 <= i < right.len() implies product_meets(
            row,
            #[trigger] right[i],
            like,
        ) by {
            assert(both[left.len() + i] == right[i]);
        }
    }
}

proof fn lemma_product_given<T>(
    row: ProductShown,
    sql: Seq<char>,
    value: Option<T>,
    bound: spec_fn(T) -> Bound,
    like: Like,
)
    ensures
        product_meets_all(row, given(sql, value, bound), like) == (value is Some
            ==> product_compares(row, sql, bound(value->0))),
{
    if value is Some {
        let condition = given(sql, value, bound)[0];
        assert(product_meets(row, condition, like) == product_compares(row, sql, bound(value->0)));
    }
}

proof fn lemma_words_differ()
    ensures
        "gender = "@ != "category = "@,
        "gender = "@ != "condition = "@,
        "gender = "@ != "status = "@,
        "gender = "@ != "price >= "@,
        "gender = "@ != "price <= "@,
        "gender = "@ != "on_sale = "@,
        "category = "@ != "condition = "@,
        "category = "@ != "status = "@,
        "category = "@ != "price >= "@,
        "category = "@ != "price <= "@,
        "category = "@ != "on_sale = "@,
        "condition = "@ != "status = "@,
        "condition = "@ != "price >= "@,
        "condition = "@ != "price <= "@,
        "condition = "@ != "on_sale = "@,
        "status = "@ != "price >= "@,
        "status = "@ != "price <= "@,
        "status = "@ != "on_sale = "@,
        "price >= "@ != "price <= "@,
        "price >= "@ != "on_sale = "@,
        "price <= "@ != "on_sale = "@,
        "Available"@ != "Reserved"@,
        "Available"@ != "Sold"@,
        "Available"@ != "Archived"@,
        "Reserved"@ != "Sold"@,
        "Reserved"@ != "Archived"@,
        "Sold"@ != "Archived"@,
{
    reveal_strlit("gender = ");
    reveal_strlit("category = ");
    reveal_strlit("condition = ");
    reveal_strlit("status = ");
    reveal_strlit("price >= ");
    reveal_strlit("price <= ");
    reveal_strlit("on_sale = ");
    reveal_strlit("Available");
    reveal_strlit("Reserved");
    reveal_strlit("Sold");
    reveal_strlit("Archived");
    assert("gender = "@[0] == 'g');
    assert("category = "@[0] == 'c');
    assert("category = "@[1] == 'a');
    assert("condition = "@[0] == 'c');
    assert("condition = "@[1] == 'o');
    assert("status = "@[0] == 's');
    assert("price >= "@[0] == 'p');
    assert("price <= "@[0] == 'p');
    assert("price >= "@[6] == '>');
    assert("price <= "@[6] == '<');
    assert("on_sale = "@[0] == 'o');
    assert("Available"@[1] == 'v');
    assert("Reserved"@[1] == 'e');
    assert("Sold"@[1] == 'o');
    assert("Archived"@[1] == 'r');
}

proof fn lemma_product_searched(
    row: ProductShown,
    term: Option<String>,
    like: Like,
)
    ensures
        product_meets_all(
            row,
            searched(seq!["(name ILIKE "@, " OR description ILIKE "@], term, ")"@),
            like,
        ) == (term is Some ==> like(row.name@, "%"@ + term->0@ + "%"@) || like(
            row.description@,
            "%"@ + term->0@ + "%"@,
        )),
{
    let columns = seq!["(name ILIKE "@, " OR description ILIKE "@];
    if term is Some {
        let pattern = "%"@ + term->0@ + "%"@;
        assert(pattern_for(term->0@) == pattern);
        reveal_with_fuel(search_pieces, 3);
        assert(columns.drop_last() =~= seq!["(name ILIKE "@]);
        assert(columns.drop_last().drop_last() =~= Seq::empty());
        let condition = searched(columns, term, ")"@)[0];
        assert(condition =~= seq![
            Piece::Sql("(name ILIKE "@),
            Piece::Bind(Bound::Text(pattern)),
            Piece::Sql(" OR description ILIKE "@),
            Piece::Bind(Bound::Text(pattern)),
            Piece::Sql(")"@),
        ]);
        assert(product_meets(row, condition, like) == (like(row.name@, pattern) || like(
            row.description@,
            pattern,
        )));
    }
}

/// A product meets the conditions of a list if and only if it passes every filter that was given.
pub proof fn law_products_are_filtered(row: ProductShown, params: ListingParams, like: Like)
    ensures
        product_meets_all(row, product_conditions(params), like) == product_wanted(
            row,
            params,
            like,
        ),
{
    let text = |text: String| Bound::Text(text@);
    let number = |number: i64| Bound::Number(number);
    let label = |status: ProductStatus| Bound::Text(status.label()@);
    let flag = |flag: bool| Bound::Flag(flag);
    let gender = given("gender = "@, params.gender, text);
    let category = given("category = "@, params.category, text);
    let condition = given("condition = "@, params.condition, text);
    let status = given("status = "@, params.status, label);
    let least = given("price >= "@, params.price_min, number);
    let most = given("price <= "@, params.price_max, number);
    let on_sale = given("on_sale = "@, params.on_sale, flag);
    let columns = seq!["(name ILIKE "@, " OR description ILIKE "@];
    let search = searched(columns, params.search, ")"@);
    lemma_words_differ();
    lemma_product_given(row, "gender = "@, params.gender, text, like);
    lemma_product_given(row, "category = "@, params.category, text, like);
    lemma_product_given(row, "condition = "@, params.condition, text, like);
    lemma_product_given(row, "status = "@, params.status, label, like);
    lemma_product_given(row, "price >= "@, params.price_min, number, like);
    lemma_product_given(row, "price <= "@, params.price_max, number, like);
    lemma_product_given(row, "on_sale = "@, params.on_sale, flag, like);
    lemma_product_searched(row, params.search, like);
    lemma_products_joined(row, gender, category, like);
    lemma_products_joined(row, gender + category, condition, like);
    lemma_products_joined(row, gender + category + condition, status, like);
    lemma_products_joined(row, gender + category + condition + status, least, like);
    lemma_products_joined(row, gender + category + condition + status + least, most, like);
    lemma_products_joined(row, gender + category + condition + status + least + most, on_sale, like);
    lemma_products_joined(
        row,
        gender + category + condition + status + least + most + on_sale,
        search,
        like,
    );
    assert(product_conditions(params) == gender + category + condition + status + least + most
        + on_sale + search);
}

/// An order in a list, with the email address of the user who placed it.
pub struct ListedOrder {
    pub id: Id,
    pub user_id: Option<Id>,
    pub status: Seq<char>,
    /// In microseconds since 1970.
    pub order_date: i64,
    pub shipping_last_name: Seq<char>,
    pub guest_email: Option<Seq<char>>,
    pub user_email: Option<Seq<char>>,
}

/// What a comparison with a value means for an order.
pub open spec fn order_compares(row: ListedOrder, sql: Seq<char>, value: Bound) -> bool {
    ||| sql == " o.user_id = "@ && (value matches Bound::Id(id) && row.user_id == Some(id))
    ||| sql == " o.status = "@ && value == Bound::Text(row.status)
    ||| sql == " o.order_date >= "@ && (value matches Bound::Instant(first) && row.order_date
        >= first)
    ||| sql == " o.order_date <= "@ && (value matches Bound::Instant(last) && row.order_date
        <= last)
}

/// Whether an optional text is there and like a pattern.
pub open spec fn like_if_there(text: Option<Seq<char>>, pattern: Seq<char>, like: Like) -> bool {
    text matches Some(text) && like(text, pattern)
}

/// What a condition means for an order: a comparison, or that its id, the name of who gets it or one
/// of the email addresses is like a pattern.
pub open spec fn order_meets(row: ListedOrder, condition: Seq<Piece>, like: Like) -> bool {
    if condition.len() == 2 {
        match (condition[0], condition[1]) {
            (Piece::Sql(sql), Piece::Bind(value)) => order_compares(row, sql, value),
            _ => false,
        }
    } else {
        &&& condition.len() == 9
        &&& condition[0] == Piece::Sql(" (CAST(o.id AS TEXT) ILIKE "@)
        &&& condition[2] == Piece::Sql(" OR o.shipping_last_name ILIKE "@)
        &&& condition[4] == Piece::Sql(" OR o.guest_email ILIKE "@)
        &&& condition[6] == Piece::Sql(" OR u.email ILIKE "@)
        &&& condition[8] == Piece::Sql(") "@)
        &&& match (condition[1], condition[3], condition[5], condition[7]) {
            (
                Piece::Bind(Bound::Text(a)),
                Piece::Bind(Bound::Text(b)),
                Piece::Bind(Bound::Text(c)),
                Piece::Bind(Bound::Text(d)),
            ) => like(uuid_text(row.id), a) || like(row.shipping_last_name, b) || like_if_there(
                row.guest_email,
                c,
                like,
            ) || like_if_there(row.user_email, d, like),
            _ => false,
        }
    }
}

/// Whether an order meets every condition.
pub open spec fn order_meets_all(
    row: ListedOrder,
    conditions: Seq<Seq<Piece>>,
    like: Like,
) -> bool {
    forall|i: int| 0 <= i < conditions.len() ==> order_meets(row, #[trigger] conditions[i], like)
}

/// Whether the term occurs in what an order is found by.
pub open spec fn order_mentions(row: ListedOrder, term: Seq<char>, like: Like) -> bool {
    let pattern = "%"@ + term + "%"@;
    ||| like(uuid_text(row.id), pattern)
    ||| like(row.shipping_last_name, pattern)
    ||| like_if_there(row.guest_email, pattern, like)
    ||| like_if_there(row.user_email, pattern, like)
}

/// Whether an order is one that was asked for. An administrator gets those that pass every filter;
/// anyone else gets their own, all of them.
pub open spec fn order_wanted(
    row: ListedOrder,
    claims: TokenClaims,
    params: OrderListingParams,
    like: Like,
) -> bool {
    if claims.role == Role::Admin {
        &&& params.status matches Some(status) ==> row.status == match status {
            OrderStatus::Pending => "Pending"@,
            OrderStatus::Named(label) => label@,
        }
        &&& params.date_from matches Some(first) ==> first <= row.order_date
        &&& params.date_to matches Some(last) ==> row.order_date <= last
        &&& params.search matches Some(term) ==> order_mentions(row, term@, like)
    } else {
        row.user_id == Some(claims.sub)
    }
}

proof fn lemma_orders_joined(
    row: ListedOrder,
    left: Seq<Seq<Piece>>,
    right: Seq<Seq<Piece>>,
    like: Like,
)
    ensures
        order_meets_all(row, left + right, like) == (order_meets_all(row, left, like)
            && order_meets_all(row, right, like)),
{
    let both = left + right;
    if order_meets_all(row, both, like) {
        assert forall|i: int| 0 <= i < left.len() implies order_meets(
            row,
            #[trigger] left[i],
            like,
        ) by {
            assert(both[i] == left[i]);
        }
        assert forall|i: int| 0 <= i < right.len() implies order_meets(
            row,
            #[trigger] right[i],
            like,
        ) by {
            assert(both[left.len() + i] == right[i]);
        }
    }
}

proof fn lemma_order_given<T>(
    row: ListedOrder,
    sql: Seq<char>,
    value: Option<T>,
    bound: spec_fn(T) -> Bound,
    like: Like,
)
    ensures
        order_meets_all(row, given(sql, value, bound), like) == (value is Some ==> order_compares(
            row,
            sql,
            bound(value->0),
        )),
{
    if value is Some {
        let condition = given(sql, value, bound)[0];
        assert(order_meets(row, condition, like) == order_compares(row, sql, bound(value->0)));
    }
}

proof fn lemma_order_words_differ()
    ensures
        " o.user_id = "@ != " o.status = "@,
        " o.user_id = "@ != " o.order_date >= "@,
        " o.user_id = "@ != " o.order_date <= "@,
        " o.status = "@ != " o.order_date >= "@,
        " o.status = "@ != " o.order_date <= "@,
        " o.order_date >= "@ != " o.order_date <= "@,
{
    reveal_strlit(" o.user_id = ");
    reveal_strlit(" o.status = ");
    reveal_strlit(" o.order_date >= ");
    reveal_strlit(" o.order_date <= ");
    assert(" o.user_id = "@[3] == 'u');
    assert(" o.status = "@[3] == 's');
    assert(" o.order_date >= "@[3] == 'o');
    assert(" o.order_date <= "@[3] == 'o');
    assert(" o.order_date >= "@[14] == '>');
    assert(" o.order_date <= "@[14] == '<');
}

proof fn lemma_order_searched(row: ListedOrder, term: Option<String>, like: Like)
    ensures
        order_meets_all(
            row,
            searched(
                seq![
                    " (CAST(o.id AS TEXT) ILIKE "@,
                    " OR o.shipping_last_name ILIKE "@,
                    " OR o.guest_email ILIKE "@,
                    " OR u.email ILIKE "@,
                ],
                term,
                ") "@,
            ),
            like,
        ) == (term is Some ==> order_mentions(row, term->0@, like)),
{
    let columns = seq![
        " (CAST(o.id AS TEXT) ILIKE "@,
        " OR o.shipping_last_name ILIKE "@,
        " OR o.guest_email ILIKE "@,
        " OR u.email ILIKE "@,
    ];
    if term is Some {
        let pattern = "%"@ + term->0@ + "%"@;
        assert(pattern_for(term->0@) == pattern);
        reveal_with_fuel(search_pieces, 5);
        let three = columns.drop_last();
        let two = three.drop_last();
        let one = two.drop_last();
        assert(three =~= seq![
            " (CAST(o.id AS TEXT) ILIKE "@,
            " OR o.shipping_last_name ILIKE "@,
            " OR o.guest_email ILIKE "@,
        ]);
        assert(two =~= seq![
            " (CAST(o.id AS TEXT) ILIKE "@,
            " OR o.shipping_last_name ILIKE "@,
        ]);
        assert(one =~= seq![" (CAST(o.id AS TEXT) ILIKE "@]);
        assert(one.drop_last() =~= Seq::empty());
        let condition = searched(columns, term, ") "@)[0];
        assert(condition =~= seq![
            Piece::Sql(" (CAST(o.id AS TEXT) ILIKE "@),
            Piece::Bind(Bound::Text(pattern)),
            Piece::Sql(" OR o.shipping_last_name ILIKE "@),
            Piece::Bind(Bound::Text(pattern)),
            Piece::Sql(" OR o.guest_email ILIKE "@),
            Piece::Bind(Bound::Text(pattern)),
            Piece::Sql(" OR u.email ILIKE "@),
            Piece::Bind(Bound::Text(pattern)),
            Piece::Sql(") "@),
        ]);
        assert(order_meets(row, condition, like) == order_mentions(row, term->0@, like));
    }
}

/// An order meets the conditions of a list if and only if it is one that was asked for. Nobody but an
/// administrator sees the orders of others.
pub proof fn law_orders_are_filtered(
    row: ListedOrder,
    claims: TokenClaims,
    params: OrderListingParams,
    like: Like,
)
    ensures
        order_meets_all(row, order_conditions(claims, params), like) == order_wanted(
            row,
            claims,
            params,
            like,
        ),
{
    lemma_order_words_differ();
    if claims.role == Role::Admin {
        let label = |status: OrderStatus| Bound::Text(status.label());
        let instant = |micros: i64| Bound::Instant(micros);
        let status = given(" o.status = "@, params.status, label);
        let first = given(" o.order_date >= "@, params.date_from, instant);
        let last = given(" o.order_date <= "@, params.date_to, instant);
        let columns = seq![
            " (CAST(o.id AS TEXT) ILIKE "@,
            " OR o.shipping_last_name ILIKE "@,
            " OR o.guest_email ILIKE "@,
            " OR u.email ILIKE "@,
        ];
        let search = searched(columns, params.search, ") "@);
        lemma_order_given(row, " o.status = "@, params.status, label, like);
        lemma_order_given(row, " o.order_date >= "@, params.date_from, instant, like);
        lemma_order_given(row, " o.order_date <= "@, params.date_to, instant, like);
        lemma_order_searched(row, params.search, like);
        lemma_orders_joined(row, status, first, like);
        lemma_orders_joined(row, status + first, last, like);
        lemma_orders_joined(row, status + first + last, search, like);
        assert(order_conditions(claims, params) == status + first + last + search);
    } else {
        let condition = order_conditions(claims, params)[0];
        assert(order_meets(row, condition, like) == (row.user_id == Some(claims.sub)));
    }
}

/// Texts of up to 2 to the 31st bytes, less one, are taken as filters; a search term has room for the
/// two signs around it.
pub proof fn law_texts_fit(
    products: ListingParams,
    orders: OrderListingParams,
    fit: bool,
    orders_fit: bool,
)
    requires
        call_ensures(product_texts_fit, (&products,), fit),
        call_ensures(order_texts_fit, (&orders,), orders_fit),
    ensures
        fit == (fits(products.gender) && fits(products.category) && fits(products.condition) && (
        products.search matches Some(term) ==> short("%"@ + term@ + "%"@))),
        orders_fit == ((orders.status matches Some(OrderStatus::Named(label)) ==> short(label@)) && (
        orders.search matches Some(term) ==> short("%"@ + term@ + "%"@))),
{
}

/// Whether a text is short enough to be bound.
pub open spec fn short(text: Seq<char>) -> bool {
    encode_utf8(text).len() <= 0x7fff_ffff
}

/// Whether a text, where there is one, is short enough to be bound.
pub open spec fn fits(text: Option<String>) -> bool {
    text matches Some(text) ==> short(text@)
}

/// A list of products is sorted by price or by age where that is asked for, and else by name; a list
/// of orders by what they cost or how far they are, and else by date.
pub proof fn law_lists_are_sorted(sort_by: Seq<char>)
    ensures
        sort_by == "price"@ ==> product_column(sort_by)@ == "price"@,
        sort_by == "created_at"@ ==> product_column(sort_by)@ == "created_at"@,
        sort_by != "price"@ && sort_by != "created_at"@ ==> product_column(sort_by)@ == "name"@,
        sort_by == "total_price"@ ==> order_column(sort_by)@ == "o.total_price"@,
        sort_by == "status"@ ==> order_column(sort_by)@ == "o.status"@,
        sort_by != "total_price"@ && sort_by != "status"@ ==> order_column(sort_by)@
            == "o.order_date"@,
{
    reveal_strlit("price");
    reveal_strlit("created_at");
    reveal_strlit("total_price");
    reveal_strlit("status");
    assert("price"@.len() == 5);
    assert("created_at"@.len() == 10);
    assert("total_price"@.len() == 11);
    assert("status"@.len() == 6);
}

/// The text of a query is its pieces one after the other, the values in it numbered from 1, and its
/// values are theirs in the same order.
pub proof fn law_pieces_are_written(pieces: Seq<Piece>, sql: Seq<char>, value: Bound)
    ensures
        sql_of(Seq::empty()) == Seq::<char>::empty(),
        bounds_of(Seq::empty()) == Seq::<Bound>::empty(),
        sql_of(pieces.push(Piece::Sql(sql))) == sql_of(pieces) + sql,
        bounds_of(pieces.push(Piece::Sql(sql))) == bounds_of(pieces),
        sql_of(pieces.push(Piece::Bind(value))) == sql_of(pieces) + placeholder(
            bounds_of(pieces).len() + 1,
        ),
        bounds_of(pieces.push(Piece::Bind(value))) == bounds_of(pieces).push(value),
{
    assert(pieces.push(Piece::Sql(sql)).drop_last() =~= pieces);
    assert(pieces.push(Piece::Bind(value)).drop_last() =~= pieces);
}

/// A query is made of pieces only where its text and its values are theirs.
pub proof fn law_made_of(query: SqlQuery, pieces: Seq<Piece>)
    requires
        made_of(query, pieces),
    ensures
        query_sql(query) == sql_of(pieces),
        query_binds(query) == bounds_of(pieces),
{
}

/// All conditions of a query must hold: the first stands behind `WHERE`, every other behind `AND`.
pub proof fn law_conditions_all_hold(
    base: Seq<char>,
    conditions: Seq<Seq<Piece>>,
    condition: Seq<Piece>,
)
    ensures
        narrowed(base, Seq::empty()) == seq![Piece::Sql(base)],
        conditions.len() == 0 ==> narrowed(base, conditions.push(condition)) == seq![
            Piece::Sql(base),
            Piece::Sql(" WHERE "@),
        ] + condition,
        conditions.len() > 0 ==> narrowed(base, conditions.push(condition)) == narrowed(
            base,
            conditions,
        ).push(Piece::Sql(" AND "@)) + condition,
{
    assert(conditions.push(condition).drop_last() =~= conditions);
    if conditions.len() == 0 {
        assert(narrowed(base, conditions) == seq![Piece::Sql(base)]);
        assert(narrowed(base, conditions).push(Piece::Sql(" WHERE "@)) =~= seq![
            Piece::Sql(base),
            Piece::Sql(" WHERE "@),
        ]);
        assert(narrowed(base, conditions.push(condition)) =~= seq![
            Piece::Sql(base),
            Piece::Sql(" WHERE "@),
        ] + condition);
    }
}

/// A list is sorted by the column and in the direction asked for, and cut to the number of rows asked
/// for, behind the number to skip.
pub proof fn law_list_is_cut(
    pieces: Seq<Piece>,
    column: Seq<char>,
    direction: Seq<char>,
    limit: i64,
    offset: i64,
)
    ensures
        ({
            let list = paged(pieces, column, direction, limit, offset);
            let count = bounds_of(pieces).len();
            &&& sql_of(list) == sql_of(pieces) + " ORDER BY "@ + column + " "@ + direction
                + " LIMIT "@ + placeholder(count + 1) + " OFFSET "@ + placeholder(count + 2)
            &&& bounds_of(list) == bounds_of(pieces).push(Bound::Number(limit)).push(
                Bound::Number(offset),
            )
        }),
{
    let order = " ORDER BY "@ + column + " "@ + direction;
    let ordered = pieces.push(Piece::Sql(order));
    let wanted = ordered.push(Piece::Sql(" LIMIT "@));
    let limited = wanted.push(Piece::Bind(Bound::Number(limit)));
    let skips = limited.push(Piece::Sql(" OFFSET "@));
    let list = paged(pieces, column, direction, limit, offset);
    law_pieces_are_written(pieces, order, Bound::Number(limit));
    law_pieces_are_written(ordered, " LIMIT "@, Bound::Number(limit));
    law_pieces_are_written(wanted, " LIMIT "@, Bound::Number(limit));
    law_pieces_are_written(limited, " OFFSET "@, Bound::Number(offset));
    law_pieces_are_written(skips, " OFFSET "@, Bound::Number(offset));
    assert(list =~= skips.push(Piece::Bind(Bound::Number(offset))));
    let count = bounds_of(pieces).len();
    assert(sql_of(list) =~= sql_of(pieces) + " ORDER BY "@ + column + " "@ + direction + " LIMIT "@
        + placeholder(count + 1) + " OFFSET "@ + placeholder(count + 2));
}

} // verus!
