//! How each request begins, told by what its handler promises.
use crate::handlers::accounts::{
    login_handler, protected_route_handler, register_handler, shipping_complaint,
    upsert_user_shipping_details_handler, Login, Register, UpsertShipping,
};
use crate::handlers::carts::{
    add_item_to_cart_handler, add_item_to_guest_cart, add_item_to_session_cart, get_cart_handler,
    get_guest_cart, merge_cart_handler, remove_item_from_cart_handler,
    remove_item_from_guest_cart, ChangeCart, ShowCart,
};
use crate::handlers::create_order::{
    create_order_handler, order_begins, place_order, shipping_method, CreateOrder, Shipping,
};
use crate::handlers::create_product::{
    add_product, create_product_handler, product_begins, CreateProduct,
};
use crate::handlers::listings::{
    list_orders_handler, list_products, order_conditions, product_conditions, ListOrders,
    ListProducts, COUNT_ORDERS, COUNT_PRODUCTS, SELECT_ORDERS, SELECT_PRODUCTS,
};
use crate::handlers::orders::{
    get_order_details_handler, permanent_delete_order_handler, update_order_status_handler,
    DeleteOrder, GetOrder, UpdateOrderStatus,
};
use crate::handlers::products::{
    archivize_product_handler, get_product_details, permanent_delete_product_handler,
    ArchivizeProduct, DeleteProduct, GetProduct,
};
use crate::handlers::update_product::{update_product_partial_handler, UpdateProduct};
use crate::ids::{marked_random, Id, XGuestCartId};
use crate::json::Json;
use crate::laws::accounts::{logs_in, registers, row_of_address};
use crate::laws::answers::law_count_matches_list;
use crate::laws::filters::{law_list_is_cut, law_lists_are_sorted};
use crate::laws::listings::{fewest_pages, lemma_fewest};
use crate::laws::placed_orders::holds_text;
use crate::laws::sessions::law_good_form_is_looked_into;
use crate::laws::told::{law_answer_is_told, message_text, page_kept};
use crate::models::{
    AddProductToCartPayload, CheckoutFormPayload, ListingParams, LoginPayload, MergeCartPayload,
    OrderListingParams, ProductStatus, RegistrationPayload, Role, TokenClaims,
    UpdateOrderStatusPayload, UpdateUserShippingDetailsPayload, ValidationErrors,
};
use crate::pages::{count_pages, find_page};
use crate::protocol::{
    ends, seen, Answer, CartOwner, Command, Content, Fault, Outcome, Query, Step,
};
use crate::sql::{
    bounds_of, narrowed, placeholder, query_binds, query_sql, sql_of, Bound, SqlQuery,
};
use crate::statements::{sql, statement, statement_binds, statement_sql, Statement};
use crate::text::{
    blank, escape_quotes, i64_spelled, is_blank, is_ticked, means_ticked,
    option_string_empty_as_none, parse_i64, quotes_escaped,
};
use vstd::prelude::*;

verus! {

/// Whether a step refuses who is not allowed, in these words.
pub open spec fn not_allowed<S>(step: Step<S>, words: Seq<char>) -> bool {
    ends(step, Err(Fault::UnauthorizedAccess(words)))
}

/// Anyone may see a product.
pub proof fn law_showing_product_begins(product_id: Id, step: Step<GetProduct>)
    requires
        call_ensures(get_product_details, (product_id,), step),
    ensures
        step == Step::Perform(
            GetProduct::Finding,
            Command::Query(Query::SelectProduct { id: product_id }),
        ),
{
}

/// Only an administrator archives a product.
pub proof fn law_archiving_begins(product_id: Id, claims: TokenClaims, step: Step<ArchivizeProduct>)
    requires
        call_ensures(archivize_product_handler, (product_id, claims), step),
    ensures
        claims.role != Role::Admin ==> not_allowed(
            step,
            "Tylko administrator może usuwać produkty"@,
        ),
        claims.role == Role::Admin ==> step == Step::Perform(
            ArchivizeProduct::Archiving,
            Command::Query(
                Query::SetProductStatus { id: product_id, status: ProductStatus::Archived },
            ),
        ),
{
}

/// Only an administrator deletes a product.
pub proof fn law_deleting_product_begins(
    product_id: Id,
    claims: TokenClaims,
    step: Step<DeleteProduct>,
)
    requires
        call_ensures(permanent_delete_product_handler, (product_id, claims), step),
    ensures
        claims.role != Role::Admin ==> not_allowed(
            step,
            "Tylko administrator może trwale usuwać produkty"@,
        ),
        claims.role == Role::Admin ==> step == Step::Perform(
            DeleteProduct::Opening { id: product_id },
            Command::Begin,
        ),
{
}

/// Only an administrator changes a product.
pub proof fn law_changing_product_begins(
    product_id: Id,
    claims: TokenClaims,
    step: Step<UpdateProduct>,
)
    requires
        call_ensures(update_product_partial_handler, (product_id, claims), step),
    ensures
        claims.role != Role::Admin ==> not_allowed(
            step,
            "Tylko administrator może aktualizować produkty"@,
        ),
        claims.role == Role::Admin ==> step == Step::Perform(
            UpdateProduct::Opening { id: product_id },
            Command::Begin,
        ),
{
}

/// A product is added under the id that is given, or else under a random one.
pub proof fn law_adding_product_begins(
    id: Id,
    claims: TokenClaims,
    step: Step<CreateProduct>,
    random: Step<CreateProduct>,
)
    requires
        call_ensures(add_product, (id, claims), step),
        call_ensures(create_product_handler, (claims,), random),
    ensures
        product_begins(id, claims, step),
        exists|fresh: Id| marked_random(fresh) && #[trigger] product_begins(fresh, claims, random),
{
}

/// Whose form keeps the rules has the email address looked up first.
pub proof fn law_registering_begins(payload: RegistrationPayload, step: Step<Register>)
    requires
        call_ensures(register_handler, (payload, None::<ValidationErrors>), step),
    ensures
        step == registers(payload),
{
    law_good_form_is_looked_into(payload, step);
}

/// Whose form keeps the rules has the email address looked up first; any other form is refused.
pub proof fn law_logging_in_begins(
    payload: LoginPayload,
    errors: ValidationErrors,
    step: Step<Login>,
    refused: Step<Login>,
)
    requires
        call_ensures(login_handler, (payload, None::<ValidationErrors>), step),
        call_ensures(login_handler, (payload, Some(errors)), refused),
    ensures
        step == logs_in(payload),
        ends(refused, Err(Fault::Validation("Błąd walidacji danych"@))),
{
}

/// Whoever has a token is shown what it says.
pub proof fn law_token_is_shown(claims: TokenClaims, outcome: Outcome)
    requires
        call_ensures(protected_route_handler, (claims,), outcome),
    ensures
        seen(outcome) == Ok::<Answer, Fault>(
            Answer {
                status: 200,
                headers: Map::empty(),
                body: Content::Claims {
                    message: "Gratulacje! Masz dostep do chronionego zasobu."@,
                    claims,
                },
            },
        ),
{
}

/// An address is stored for the user of the token, column by column as the form has it; a form with
/// broken rules is refused, and the page is told what is wrong.
pub proof fn law_storing_address_begins(
    claims: TokenClaims,
    payload: UpdateUserShippingDetailsPayload,
    errors: ValidationErrors,
    step: Step<UpsertShipping>,
    refused: Step<UpsertShipping>,
)
    requires
        call_ensures(
            upsert_user_shipping_details_handler,
            (claims, payload, None::<ValidationErrors>),
            step,
        ),
        call_ensures(
            upsert_user_shipping_details_handler,
            (claims, payload, Some(errors)),
            refused,
        ),
    ensures
        step matches Step::Perform(
            UpsertShipping::Storing,
            Command::Query(Query::UpsertShipping { shipping }),
        ) && row_of_address(shipping, claims.sub, payload),
        !shipping_complaint(errors.fields@).contains('\u{7f}') ==> ends(
            refused,
            Ok(
                (Answer {
                    status: 422,
                    headers: page_kept(
                        "{\"showMessage\":"@ + message_text(
                            shipping_complaint(errors.fields@),
                            "error"@,
                        ) + "}"@,
                    ),
                    body: Content::Json(
                        Json::Object(seq![("error"@, Json::Text("Validation failed"@))]),
                    ),
                }),
            ),
        ),
{
    reveal_strlit("error");
    if !shipping_complaint(errors.fields@).contains('\u{7f}') {
        law_answer_is_told(
            422,
            shipping_complaint(errors.fields@),
            "error"@,
            Json::Object(seq![("error"@, Json::Text("Validation failed"@))]),
        );
    }
}

/// An order is placed under the id that is given, or else under a random one.
pub proof fn law_placing_order_begins(
    order_id: Id,
    claims: Option<TokenClaims>,
    guest: Option<XGuestCartId>,
    payload: CheckoutFormPayload,
    invalid: Option<ValidationErrors>,
    step: Step<CreateOrder>,
    random: Step<CreateOrder>,
)
    requires
        call_ensures(place_order, (order_id, claims, guest, payload, invalid), step),
        call_ensures(create_order_handler, (claims, guest, payload, invalid), random),
    ensures
        order_begins(order_id, claims, guest, payload, invalid, step),
        exists|fresh: Id|
            marked_random(fresh) && #[trigger] order_begins(
                fresh,
                claims,
                guest,
                payload,
                invalid,
                random,
            ),
{
}

/// There are two ways to ship: InPost for 11.99 and the post for 17.99.
pub proof fn law_ways_to_ship(key: &str, found: Option<Shipping>)
    requires
        call_ensures(shipping_method, (key,), found),
    ensures
        found is Some == (key@ == "inpost"@ || key@ == "poczta"@),
        key@ == "inpost"@ ==> (found->0).cost == 1199 && (found->0).name@
            == "Paczkomat InPost 24/7"@,
        key@ == "poczta"@ ==> (found->0).cost == 1799 && (found->0).name@ == "Poczta Polska S.A."@,
{
    reveal_strlit("inpost");
    reveal_strlit("poczta");
    assert("inpost"@[0] == 'i');
    assert("poczta"@[0] == 'p');
}

/// An order is shown by its id to who may see it.
pub proof fn law_showing_order_begins(claims: TokenClaims, order_id: Id, step: Step<GetOrder>)
    requires
        call_ensures(get_order_details_handler, (claims, order_id), step),
    ensures
        step == Step::Perform(
            GetOrder::Finding { claims, order_id },
            Command::Query(Query::SelectOrder { id: order_id }),
        ),
{
}

/// Only an administrator changes the status of an order, to the one that the form names.
pub proof fn law_changing_status_begins(
    claims: TokenClaims,
    order_id: Id,
    payload: UpdateOrderStatusPayload,
    step: Step<UpdateOrderStatus>,
)
    requires
        call_ensures(update_order_status_handler, (claims, order_id, payload), step),
    ensures
        claims.role != Role::Admin ==> not_allowed(
            step,
            "Tylko administrator może zmieniać status zamówienia"@,
        ),
        claims.role == Role::Admin ==> step == Step::Perform(
            UpdateOrderStatus::Updating,
            Command::Query(
                Query::UpdateOrderStatus { id: order_id, order_status: payload.status },
            ),
        ),
{
}

/// Only an administrator deletes an order.
pub proof fn law_deleting_order_begins(claims: TokenClaims, order_id: Id, step: Step<DeleteOrder>)
    requires
        call_ensures(permanent_delete_order_handler, (claims, order_id), step),
    ensures
        claims.role != Role::Admin ==> not_allowed(step, "Brak uprawnień administratora."@),
        claims.role == Role::Admin ==> step == Step::Perform(
            DeleteOrder::Opening { order_id },
            Command::Begin,
        ),
{
}

/// A user's cart is the one of the token's user.
pub proof fn law_user_cart_begins(
    claims: TokenClaims,
    item: AddProductToCartPayload,
    product_id: Id,
    merge: MergeCartPayload,
    added: Step<ChangeCart>,
    removed: Step<ChangeCart>,
    merged: Step<ChangeCart>,
    shown: Step<ShowCart>,
)
    requires
        call_ensures(add_item_to_cart_handler, (claims, item), added),
        call_ensures(remove_item_from_cart_handler, (claims, product_id), removed),
        call_ensures(merge_cart_handler, (claims, merge), merged),
        call_ensures(get_cart_handler, (claims,), shown),
    ensures
        added == Step::Perform(
            ChangeCart::AddOpening { user_id: claims.sub, product_id: item.product_id },
            Command::Begin,
        ),
        removed == Step::Perform(
            ChangeCart::RemoveOpening { owner: CartOwner::User(claims.sub), product_id },
            Command::Begin,
        ),
        merged == Step::Perform(
            ChangeCart::MergeOpening { user_id: claims.sub, session: merge.guest_cart_id },
            Command::Begin,
        ),
        shown == Step::Perform(
            ShowCart::Acquiring { owner: CartOwner::User(claims.sub) },
            Command::Acquire,
        ),
{
}

/// A guest's cart is the one of the session that the guest names.
pub proof fn law_guest_cart_begins(
    guest: XGuestCartId,
    item: AddProductToCartPayload,
    product_id: Id,
    added: Step<ChangeCart>,
    removed: Step<ChangeCart>,
    shown: Step<ShowCart>,
)
    requires
        call_ensures(add_item_to_guest_cart, (Some(guest), item), added),
        call_ensures(remove_item_from_guest_cart, (Some(guest), product_id), removed),
        call_ensures(get_guest_cart, (Some(guest),), shown),
    ensures
        added == Step::Perform(
            ChangeCart::GuestOpening {
                session: guest.0,
                known: true,
                product_id: item.product_id,
            },
            Command::Begin,
        ),
        removed == Step::Perform(
            ChangeCart::RemoveOpening { owner: CartOwner::Guest(guest.0), product_id },
            Command::Begin,
        ),
        shown == Step::Perform(
            ShowCart::Acquiring { owner: CartOwner::Guest(guest.0) },
            Command::Acquire,
        ),
{
}

/// A guest without a session gets a new random one with the first product, has nothing to take out,
/// and is shown an empty cart.
pub proof fn law_new_guest_begins(
    session: Id,
    known: bool,
    item: AddProductToCartPayload,
    product_id: Id,
    given: Step<ChangeCart>,
    added: Step<ChangeCart>,
    removed: Step<ChangeCart>,
    shown: Step<ShowCart>,
)
    requires
        call_ensures(add_item_to_session_cart, (session, known, item), given),
        call_ensures(add_item_to_guest_cart, (None::<XGuestCartId>, item), added),
        call_ensures(remove_item_from_guest_cart, (None::<XGuestCartId>, product_id), removed),
        call_ensures(get_guest_cart, (None::<XGuestCartId>,), shown),
    ensures
        given == Step::Perform(
            ChangeCart::GuestOpening { session, known, product_id: item.product_id },
            Command::Begin,
        ),
        exists|fresh: Id| #[trigger]
            marked_random(fresh) && added == Step::Perform(
                ChangeCart::GuestOpening {
                    session: fresh,
                    known: false,
                    product_id: item.product_id,
                },
                Command::Begin,
            ),
        ends(removed, Err(Fault::BadRequest("Missing X-Guest-Cart-Id header"@))),
        ends(
            shown,
            Ok((Answer { status: 200, headers: Map::empty(), body: Content::EmptyCart })),
        ),
{
}

/// Whether two queries count and list the rows that meet some conditions, the list sorted and cut as
/// asked for.
pub open spec fn counts_and_lists(
    count: SqlQuery,
    list: SqlQuery,
    count_sql: Seq<char>,
    list_sql: Seq<char>,
    bounds: Seq<Bound>,
    column: Seq<char>,
    direction: Seq<char>,
    limit: i64,
    offset: i64,
) -> bool {
    &&& query_sql(count) == count_sql
    &&& query_binds(count) == bounds
    &&& query_sql(list) == list_sql + " ORDER BY "@ + column + " "@ + direction + " LIMIT "@
        + placeholder(bounds.len() + 1) + " OFFSET "@ + placeholder(bounds.len() + 2)
    &&& query_binds(list) == bounds.push(Bound::Number(limit)).push(Bound::Number(offset))
}

/// The products that meet the conditions are counted; then as many as the limit says are listed,
/// behind as many as the offset says, sorted as the parameters say.
pub proof fn law_listing_products_begins(params: ListingParams, step: Step<ListProducts>)
    requires
        call_ensures(list_products, (params,), step),
    ensures
        step matches Step::Perform(
            ListProducts::Counting { list, limit, offset },
            Command::Count(count),
        ) && limit == params.limit && offset == params.offset && counts_and_lists(
            count,
            list,
            sql_of(narrowed(COUNT_PRODUCTS@, product_conditions(params))),
            sql_of(narrowed(SELECT_PRODUCTS@, product_conditions(params))),
            bounds_of(narrowed(SELECT_PRODUCTS@, product_conditions(params))),
            if params.sort_by@ == "price"@ {
                "price"@
            } else if params.sort_by@ == "created_at"@ {
                "created_at"@
            } else {
                "name"@
            },
            params.order@,
            params.limit,
            params.offset,
        ),
{
    let conditions = product_conditions(params);
    law_lists_are_sorted(params.sort_by@);
    law_list_is_cut(
        narrowed(SELECT_PRODUCTS@, conditions),
        if params.sort_by@ == "price"@ {
            "price"@
        } else if params.sort_by@ == "created_at"@ {
            "created_at"@
        } else {
            "name"@
        },
        params.order@,
        params.limit,
        params.offset,
    );
    law_count_matches_list(COUNT_PRODUCTS@, SELECT_PRODUCTS@, conditions);
}

/// The orders that meet the conditions are counted; then as many as the limit says are listed, behind
/// as many as the offset says, sorted as the parameters say.
pub proof fn law_listing_orders_begins(
    claims: TokenClaims,
    params: OrderListingParams,
    step: Step<ListOrders>,
)
    requires
        call_ensures(list_orders_handler, (claims, params), step),
    ensures
        step matches Step::Perform(
            ListOrders::Counting { list, limit, offset },
            Command::Count(count),
        ) && limit == params.limit && offset == params.offset && counts_and_lists(
            count,
            list,
            sql_of(narrowed(COUNT_ORDERS@, order_conditions(claims, params))),
            sql_of(narrowed(SELECT_ORDERS@, order_conditions(claims, params))),
            bounds_of(narrowed(SELECT_ORDERS@, order_conditions(claims, params))),
            if params.sort_by@ == "total_price"@ {
                "o.total_price"@
            } else if params.sort_by@ == "status"@ {
                "o.status"@
            } else {
                "o.order_date"@
            },
            params.order@,
            params.limit,
            params.offset,
        ),
{
    let conditions = order_conditions(claims, params);
    law_lists_are_sorted(params.sort_by@);
    law_list_is_cut(
        narrowed(SELECT_ORDERS@, conditions),
        if params.sort_by@ == "total_price"@ {
            "o.total_price"@
        } else if params.sort_by@ == "status"@ {
            "o.status"@
        } else {
            "o.order_date"@
        },
        params.order@,
        params.limit,
        params.offset,
    );
    law_count_matches_list(COUNT_ORDERS@, SELECT_ORDERS@, conditions);
}

/// A query is run by its text with its values.
pub proof fn law_statement_is_run(query: Query, made: Statement, text: &'static str)
    requires
        call_ensures(statement, (query,), made),
        call_ensures(sql, (&query,), text),
    ensures
        made.sql == statement_sql(query),
        made.binds@ == statement_binds(query),
        text == statement_sql(query),
{
}

/// Page numbers are worked out in whole numbers wherever the double that stands for each of them is
/// exact: the fewest pages that hold the items, and the page that begins behind the offset.
pub proof fn law_pages_are_counted(
    total: i64,
    offset: i64,
    limit: i64,
    pages: Option<i64>,
    page: Option<i64>,
)
    requires
        call_ensures(count_pages, (total, limit), pages),
        call_ensures(find_page, (offset, limit), page),
        0 <= total <= 0x20_0000_0000_0000,
        0 <= offset < 0x20_0000_0000_0000,
        0 < limit,
    ensures
        pages matches Some(number) && fewest_pages(
            total as int,
            limit as int,
            number as int,
        ),
        page matches Some(number) && number == offset as int / limit as int + 1,
{
    lemma_fewest(total as int, limit as int);
}

/// Texts are read and written as their laws say.
pub proof fn law_texts_are_read(
    text: &str,
    optional: Option<String>,
    number: Option<i64>,
    ticked: bool,
    empty: bool,
    kept: Option<String>,
    escaped: String,
)
    requires
        call_ensures(parse_i64, (text,), number),
        call_ensures(is_ticked, (text,), ticked),
        call_ensures(is_blank, (text,), empty),
        call_ensures(option_string_empty_as_none, (optional,), kept),
        call_ensures(escape_quotes, (text,), escaped),
    ensures
        number == i64_spelled(text@),
        ticked == means_ticked(text@),
        empty == blank(text@),
        holds_text(kept, optional),
        escaped@ == quotes_escaped(text@),
{
}

} // verus!
