//! Lists of products and of orders, filtered, sorted and cut into pages.
use crate::headers::no_headers;
use crate::ids::Id;
use crate::messages::bare_headers;
use crate::models::{
    ListingParams, OrderListingParams, OrderStatus, OrderWithCustomerInfo, Page, Product,
    ProductStatus, Role, TokenClaims,
};
use crate::pages::{
    count_pages, find_page, page_count, page_findable, page_number, pages_countable,
};
use crate::protocol::{
    answer, ends, refuse, Answer, Body, Command, Content, Reply, Stage, Step,
};
use crate::sql::{
    bindable, given, instant_in_range, made_of, narrowed, paged, pattern_for, searched, Bound, Piece,
    Selection, SqlQuery,
};
use crate::text::{byte_length, join3, same_text};
use vstd::prelude::*;
use vstd::utf8::is_ascii_chars_encode_utf8;

verus! {

/// Counts products.
pub const COUNT_PRODUCTS: &'static str = "SELECT COUNT(*) FROM products";

/// Selects products.
pub const SELECT_PRODUCTS: &'static str =
    "SELECT id, name, description, price, gender, condition, category, status, images, on_sale, created_at, updated_at FROM products";

/// Counts orders.
pub const COUNT_ORDERS: &'static str =
    "SELECT COUNT(DISTINCT o.id) FROM orders o LEFT JOIN users u ON o.user_id = u.id";

/// Selects orders with the address to which mail about each goes.
pub const SELECT_ORDERS: &'static str = "
            SELECT
                o.id, o.user_id,
                o.order_date,
                o.status,
                o.total_price,
                o.shipping_first_name,
                o.shipping_last_name,
                o.shipping_address_line1,
                o.shipping_address_line2,
                o.shipping_city,
                o.shipping_postal_code,
                o.shipping_country,
                o.shipping_phone,
                o.shipping_method_name,
                o.payment_method,
                o.guest_email,
                o.guest_session_id,
                o.created_at, o.updated_at,
                COALESCE(u.email, o.guest_email) as customer_email
            FROM orders o
            LEFT JOIN users u ON o.user_id = u.id
        ";

/// The conditions that a list of products is narrowed by.
pub open spec fn product_conditions(params: ListingParams) -> Seq<Seq<Piece>> {
    given("gender = "@, params.gender, |text: String| Bound::Text(text@))
        + given("category = "@, params.category, |text: String| Bound::Text(text@))
        + given("condition = "@, params.condition, |text: String| Bound::Text(text@))
        + given("status = "@, params.status, |status: ProductStatus| Bound::Text(status.label()@))
        + given("price >= "@, params.price_min, |number: i64| Bound::Number(number))
        + given("price <= "@, params.price_max, |number: i64| Bound::Number(number))
        + given("on_sale = "@, params.on_sale, |flag: bool| Bound::Flag(flag))
        + searched(seq!["(name ILIKE "@, " OR description ILIKE "@], params.search, ")"@)
}

/// The column that a list of products is sorted by: the one asked for, or else the name.
pub open spec fn product_column(sort_by: Seq<char>) -> &'static str {
    if sort_by == "price"@ {
        "price"
    } else if sort_by == "created_at"@ {
        "created_at"
    } else {
        "name"
    }
}

/// The conditions that a list of orders is narrowed by. Who is no administrator sees only their
/// own orders, and filters nothing.
pub open spec fn order_conditions(claims: TokenClaims, params: OrderListingParams) -> Seq<
    Seq<Piece>,
> {
    if claims.role != Role::Admin {
        seq![seq![Piece::Sql(" o.user_id = "@), Piece::Bind(Bound::Id(claims.sub))]]
    } else {
        given(" o.status = "@, params.status, |status: OrderStatus| Bound::Text(status.label()))
            + given(" o.order_date >= "@, params.date_from, |micros: i64| Bound::Instant(micros))
            + given(" o.order_date <= "@, params.date_to, |micros: i64| Bound::Instant(micros))
            + searched(
            seq![
                " (CAST(o.id AS TEXT) ILIKE "@,
                " OR o.shipping_last_name ILIKE "@,
                " OR o.guest_email ILIKE "@,
                " OR u.email ILIKE "@,
            ],
            params.search,
            ") "@,
        )
    }
}

/// The column that a list of orders is sorted by: the one asked for, or else the date.
pub open spec fn order_column(sort_by: Seq<char>) -> &'static str {
    if sort_by == "total_price"@ {
        "o.total_price"
    } else if sort_by == "status"@ {
        "o.status"
    } else {
        "o.order_date"
    }
}

/// Whether the dates that orders are filtered by are points in time that a calendar knows.
pub open spec fn dated(params: OrderListingParams) -> bool {
    &&& params.date_from is Some ==> instant_in_range(params.date_from->0)
    &&& params.date_to is Some ==> instant_in_range(params.date_to->0)
}

/// Whether an optional text is short enough to be bound.
pub open spec fn bindable_if_given(text: Option<String>) -> bool {
    text is Some ==> bindable(text->0@)
}

/// Whether the pattern for an optional search term is short enough to be bound.
pub open spec fn searchable(term: Option<String>) -> bool {
    term is Some ==> bindable(pattern_for(term->0@))
}

/// Whether the texts that products are filtered by are short enough to be bound.
pub open spec fn products_bindable(params: ListingParams) -> bool {
    &&& bindable_if_given(params.gender)
    &&& bindable_if_given(params.category)
    &&& bindable_if_given(params.condition)
    &&& searchable(params.search)
}

/// Whether the texts that orders are filtered by are short enough to be bound.
pub open spec fn orders_bindable(params: OrderListingParams) -> bool {
    &&& params.status matches Some(OrderStatus::Named(label)) ==> bindable(label@)
    &&& searchable(params.search)
}

fn text_fits(text: &Option<String>) -> (yes: bool)
    ensures
        yes == bindable_if_given(*text),
{
    match text {
        Some(text) => byte_length(text.as_str()) <= 0x7fff_ffff,
        None => true,
    }
}

fn term_fits(term: &Option<String>) -> (yes: bool)
    ensures
        yes == searchable(*term),
{
    match term {
        Some(term) => byte_length(join3("%", term.as_str(), "%").as_str()) <= 0x7fff_ffff,
        None => true,
    }
}

/// Tells whether the texts that products are filtered by are short enough to be bound.
pub fn product_texts_fit(params: &ListingParams) -> (yes: bool)
    ensures
        yes == products_bindable(*params),
{
    text_fits(&params.gender) && text_fits(&params.category) && text_fits(&params.condition)
        && term_fits(&params.search)
}

/// Tells whether the texts that orders are filtered by are short enough to be bound.
pub fn order_texts_fit(params: &OrderListingParams) -> (yes: bool)
    ensures
        yes == orders_bindable(*params),
{
    let status_fits = match &params.status {
        Some(OrderStatus::Named(label)) => byte_length(label.as_str()) <= 0x7fff_ffff,
        _ => true,
    };
    status_fits && term_fits(&params.search)
}

proof fn lemma_labels_bindable(status: ProductStatus)
    ensures
        bindable(status.label()@),
        bindable("Pending"@),
{
    reveal_strlit("Available");
    reveal_strlit("Reserved");
    reveal_strlit("Sold");
    reveal_strlit("Archived");
    reveal_strlit("Pending");
    is_ascii_chars_encode_utf8(status.label()@);
    is_ascii_chars_encode_utf8("Pending"@);
}

/// The number of pages, where it can be counted in whole numbers, else the one that was worked out.
pub open spec fn pages_or(total_items: i64, limit: i64, worked_out: i64) -> i64 {
    if pages_countable(total_items, limit) {
        page_count(total_items as int, limit as int) as i64
    } else {
        worked_out
    }
}

/// The number of the page, where it can be found in whole numbers, else the one that was worked out.
pub open spec fn page_or(offset: i64, limit: i64, worked_out: i64) -> i64 {
    if page_findable(offset, limit) {
        page_number(offset as int, limit as int) as i64
    } else {
        worked_out
    }
}

/// Whether both numbers of a page can be worked out in whole numbers.
pub open spec fn numbers_known(total_items: i64, offset: i64, limit: i64) -> bool {
    pages_countable(total_items, limit) && page_findable(offset, limit)
}

/// The page of a listing whose numbers can be worked out in whole numbers.
pub open spec fn page_of<T>(total_items: i64, offset: i64, limit: i64, data: Vec<T>) -> Page<T> {
    Page {
        total_items,
        total_pages: page_count(total_items as int, limit as int) as i64,
        current_page: page_number(offset as int, limit as int) as i64,
        per_page: limit,
        data,
    }
}

/// The page of a listing, with the numbers that were worked out for it where whole numbers do not
/// give them.
pub open spec fn page_with<T>(
    total_items: i64,
    offset: i64,
    limit: i64,
    total_pages: i64,
    current_page: i64,
    data: Vec<T>,
) -> Page<T> {
    Page {
        total_items,
        total_pages: pages_or(total_items, limit, total_pages),
        current_page: page_or(offset, limit, current_page),
        per_page: limit,
        data,
    }
}

fn make_page<T>(
    total_items: i64,
    offset: i64,
    limit: i64,
    total_pages: i64,
    current_page: i64,
    data: Vec<T>,
) -> (page: Page<T>)
    ensures
        page == page_with(total_items, offset, limit, total_pages, current_page, data),
{
    let total_pages = match count_pages(total_items, limit) {
        Some(pages) => pages,
        None => total_pages,
    };
    let current_page = match find_page(offset, limit) {
        Some(page) => page,
        None => current_page,
    };
    Page { total_items, total_pages, current_page, per_page: limit, data }
}

/// How far listing products has come.
pub enum ListProducts {
    Counting { list: SqlQuery, limit: i64, offset: i64 },
    Listing { total_items: i64, limit: i64, offset: i64 },
    Paging { total_items: i64, limit: i64, offset: i64, data: Vec<Product> },
}

/// How far listing orders has come.
pub enum ListOrders {
    Counting { list: SqlQuery, limit: i64, offset: i64 },
    Listing { total_items: i64, limit: i64, offset: i64 },
    Paging { total_items: i64, limit: i64, offset: i64, data: Vec<OrderWithCustomerInfo> },
}

fn select_products(base: &'static str, params: &ListingParams) -> (selection: Selection)
    requires
        products_bindable(*params),
    ensures
        selection.well_formed(),
        selection.base@ == base@,
        selection.conditions@ == product_conditions(*params),
{
    let mut selection = Selection::new(base);
    selection.optional_text("gender = ", &params.gender);
    selection.optional_text("category = ", &params.category);
    selection.optional_text("condition = ", &params.condition);
    let ghost before = selection.conditions@;
    if let Some(status) = &params.status {
        proof {
            lemma_labels_bindable(*status);
        }
        selection.text_condition("status = ", status.text().to_owned());
    }
    assert(selection.conditions@ =~= before + given(
        "status = "@,
        params.status,
        |status: ProductStatus| Bound::Text(status.label()@),
    ));
    selection.optional_number("price >= ", params.price_min);
    selection.optional_number("price <= ", params.price_max);
    selection.optional_flag("on_sale = ", params.on_sale);
    let columns = vec!["(name ILIKE ", " OR description ILIKE "];
    assert(columns@.map_values(|column: &'static str| column@) =~= seq![
        "(name ILIKE "@,
        " OR description ILIKE "@,
    ]);
    selection.optional_search(columns, &params.search, ")");
    assert(selection.conditions@ =~= product_conditions(*params));
    selection
}

fn select_orders(base: &'static str, claims: &TokenClaims, params: &OrderListingParams) -> (
selection: Selection)
    requires
        claims.role == Role::Admin ==> dated(*params) && orders_bindable(*params),
    ensures
        selection.well_formed(),
        selection.base@ == base@,
        selection.conditions@ == order_conditions(*claims, *params),
{
    let mut selection = Selection::new(base);
    if claims.role != Role::Admin {
        selection.id_condition(" o.user_id = ", claims.sub);
        assert(selection.conditions@ =~= order_conditions(*claims, *params));
        return selection;
    }
    let ghost before = selection.conditions@;
    if let Some(status) = &params.status {
        proof {
            lemma_labels_bindable(ProductStatus::Available);
        }
        selection.text_condition(" o.status = ", status.text().to_owned());
    }
    assert(selection.conditions@ =~= before + given(
        " o.status = "@,
        params.status,
        |status: OrderStatus| Bound::Text(status.label()),
    ));
    selection.optional_instant(" o.order_date >= ", params.date_from);
    selection.optional_instant(" o.order_date <= ", params.date_to);
    let columns = vec![
        " (CAST(o.id AS TEXT) ILIKE ",
        " OR o.shipping_last_name ILIKE ",
        " OR o.guest_email ILIKE ",
        " OR u.email ILIKE ",
    ];
    assert(columns@.map_values(|column: &'static str| column@) =~= seq![
        " (CAST(o.id AS TEXT) ILIKE "@,
        " OR o.shipping_last_name ILIKE "@,
        " OR o.guest_email ILIKE "@,
        " OR u.email ILIKE "@,
    ]);
    selection.optional_search(columns, &params.search, ") ");
    assert(selection.conditions@ =~= order_conditions(*claims, *params));
    selection
}

/// Begins to list products: they are counted first.
pub fn list_products(params: ListingParams) -> (step: Step<ListProducts>)
    requires
        products_bindable(params),
    ensures
        step matches Step::Perform(
            ListProducts::Counting { list, limit, offset },
            Command::Count(count),
        ) && limit == params.limit && offset == params.offset && made_of(
            count,
            narrowed(COUNT_PRODUCTS@, product_conditions(params)),
        ) && made_of(
            list,
            paged(
                narrowed(SELECT_PRODUCTS@, product_conditions(params)),
                product_column(params.sort_by@)@,
                params.order@,
                params.limit,
                params.offset,
            ),
        ),
{
    let count = select_products(COUNT_PRODUCTS, &params).query;
    let sort_by = params.sort_by.as_str();
    let column = if same_text(sort_by, "price") {
        "price"
    } else if same_text(sort_by, "created_at") {
        "created_at"
    } else {
        "name"
    };
    let list = select_products(SELECT_PRODUCTS, &params).paged(
        column,
        params.order.as_str(),
        params.limit,
        params.offset,
    );
    Step::Perform(
        ListProducts::Counting { list, limit: params.limit, offset: params.offset },
        Command::Count(count),
    )
}

/// Begins to list orders: they are counted first.
pub fn list_orders_handler(claims: TokenClaims, params: OrderListingParams) -> (step: Step<
    ListOrders,
>)
    requires
        claims.role == Role::Admin ==> dated(params) && orders_bindable(params),
    ensures
        step matches Step::Perform(
            ListOrders::Counting { list, limit, offset },
            Command::Count(count),
        ) && limit == params.limit && offset == params.offset && made_of(
            count,
            narrowed(COUNT_ORDERS@, order_conditions(claims, params)),
        ) && made_of(
            list,
            paged(
                narrowed(SELECT_ORDERS@, order_conditions(claims, params)),
                order_column(params.sort_by@)@,
                params.order@,
                params.limit,
                params.offset,
            ),
        ),
{
    let count = select_orders(COUNT_ORDERS, &claims, &params).query;
    let sort_by = params.sort_by.as_str();
    let column = if same_text(sort_by, "total_price") {
        "o.total_price"
    } else if same_text(sort_by, "status") {
        "o.status"
    } else {
        "o.order_date"
    };
    let list = select_orders(SELECT_ORDERS, &claims, &params).paged(
        column,
        params.order.as_str(),
        params.limit,
        params.offset,
    );
    Step::Perform(
        ListOrders::Counting { list, limit: params.limit, offset: params.offset },
        Command::Count(count),
    )
}

impl Stage for ListProducts {
    open spec fn admits(self, reply: Reply) -> bool {
        true
    }

    open spec fn follows(self, reply: Reply, step: Step<ListProducts>) -> bool {
        match (self, reply) {
            (_, Reply::Failed(error)) => step == Step::<ListProducts>::Finish(Err(error)),
            (ListProducts::Counting { list, limit, offset }, Reply::Count(total_items)) => step
                == Step::Perform(
                ListProducts::Listing { total_items, limit, offset },
                Command::ListProducts(list),
            ),
            (
                ListProducts::Listing { total_items, limit, offset },
                Reply::Products(data),
            ) => if numbers_known(total_items, offset, limit) {
                ends(
                    step,
                    Ok(
                        Answer {
                            status: 200,
                            headers: no_headers(),
                            body: Content::Products(page_of(total_items, offset, limit, data)),
                        },
                    ),
                )
            } else {
                step == Step::Perform(
                    ListProducts::Paging { total_items, limit, offset, data },
                    Command::CountPages { total_items, offset, limit },
                )
            },
            (
                ListProducts::Paging { total_items, limit, offset, data },
                Reply::Pages { total_pages, current_page },
            ) => ends(
                step,
                Ok(
                    Answer {
                        status: 200,
                        headers: no_headers(),
                        body: Content::Products(
                            page_with(total_items, offset, limit, total_pages, current_page, data),
                        ),
                    },
                ),
            ),
            _ => step is Unexpected,
        }
    }

    fn accepts(&self, reply: &Reply) -> (yes: bool) {
        true
    }

    fn resume(self, reply: Reply) -> (step: Step<ListProducts>) {
        match (self, reply) {
            (_, Reply::Failed(error)) => refuse(error),
            (
                ListProducts::Counting { list, limit, offset },
                Reply::Count(total_items),
            ) => Step::Perform(
                ListProducts::Listing { total_items, limit, offset },
                Command::ListProducts(list),
            ),
            (
                ListProducts::Listing { total_items, limit, offset },
                Reply::Products(data),
            ) => match (count_pages(total_items, limit), find_page(offset, limit)) {
                (Some(total_pages), Some(current_page)) => answer(
                    200,
                    bare_headers(),
                    Body::Products(
                        Page { total_items, total_pages, current_page, per_page: limit, data },
                    ),
                ),
                _ => Step::Perform(
                    ListProducts::Paging { total_items, limit, offset, data },
                    Command::CountPages { total_items, offset, limit },
                ),
            },
            (
                ListProducts::Paging { total_items, limit, offset, data },
                Reply::Pages { total_pages, current_page },
            ) => {
                let page = make_page(
                    total_items,
                    offset,
                    limit,
                    total_pages,
                    current_page,
                    data,
                );
                answer(200, bare_headers(), Body::Products(page))
            },
            _ => Step::Unexpected,
        }
    }
}

impl Stage for ListOrders {
    open spec fn admits(self, reply: Reply) -> bool {
        true
    }

    open spec fn follows(self, reply: Reply, step: Step<ListOrders>) -> bool {
        match (self, reply) {
            (_, Reply::Failed(error)) => step == Step::<ListOrders>::Finish(Err(error)),
            (ListOrders::Counting { list, limit, offset }, Reply::Count(total_items)) => step
                == Step::Perform(
                ListOrders::Listing { total_items, limit, offset },
                Command::ListOrders(list),
            ),
            (
                ListOrders::Listing { total_items, limit, offset },
                Reply::Orders(data),
            ) => if numbers_known(total_items, offset, limit) {
                ends(
                    step,
                    Ok(
                        Answer {
                            status: 200,
                            headers: no_headers(),
                            body: Content::Orders(page_of(total_items, offset, limit, data)),
                        },
                    ),
                )
            } else {
                step == Step::Perform(
                    ListOrders::Paging { total_items, limit, offset, data },
                    Command::CountPages { total_items, offset, limit },
                )
            },
            (
                ListOrders::Paging { total_items, limit, offset, data },
                Reply::Pages { total_pages, current_page },
            ) => ends(
                step,
                Ok(
                    Answer {
                        status: 200,
                        headers: no_headers(),
                        body: Content::Orders(
                            page_with(total_items, offset, limit, total_pages, current_page, data),
                        ),
                    },
                ),
            ),
            _ => step is Unexpected,
        }
    }

    fn accepts(&self, reply: &Reply) -> (yes: bool) {
        true
    }

    fn resume(self, reply: Reply) -> (step: Step<ListOrders>) {
        match (self, reply) {
            (_, Reply::Failed(error)) => refuse(error),
            (
                ListOrders::Counting { list, limit, offset },
                Reply::Count(total_items),
            ) => Step::Perform(
                ListOrders::Listing { total_items, limit, offset },
                Command::ListOrders(list),
            ),
            (
                ListOrders::Listing { total_items, limit, offset },
                Reply::Orders(data),
            ) => match (count_pages(total_items, limit), find_page(offset, limit)) {
                (Some(total_pages), Some(current_page)) => answer(
                    200,
                    bare_headers(),
                    Body::Orders(
                        Page { total_items, total_pages, current_page, per_page: limit, data },
                    ),
                ),
                _ => Step::Perform(
                    ListOrders::Paging { total_items, limit, offset, data },
                    Command::CountPages { total_items, offset, limit },
                ),
            },
            (
                ListOrders::Paging { total_items, limit, offset, data },
                Reply::Pages { total_pages, current_page },
            ) => {
                let page = make_page(
                    total_items,
                    offset,
                    limit,
                    total_pages,
                    current_page,
                    data,
                );
                answer(200, bare_headers(), Body::Orders(page))
            },
            _ => Step::Unexpected,
        }
    }
}

} // verus!
