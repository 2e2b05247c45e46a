//! What a page is told, as it stands in the headers of an answer.
use crate::handlers::accounts::{logged_in, note, registered, told};
use crate::handlers::create_order::order_placed;
use crate::handlers::create_product::product_list_location;
use crate::handlers::orders::status_changed;
use crate::handlers::products::reload_events;
use crate::headers::{header_entries, header_key, header_valid, no_headers, with_header, Entries};
use crate::ids::{uuid_text, Id};
use crate::json::{escaped, json_of, json_text, members_text, quoted, Json};
use crate::laws::answers::law_message_reaches_page;
use crate::messages::{quiet, shown, toast_json, with_trigger};
use crate::models::{
    CartDetailsResponse, Order, OrderDetailsResponse, OrderWithCustomerInfo, Page, Product, User,
    UserPublic,
};
use crate::protocol::{
    ends, seen, Answer, AppError, Body, Content, DatabaseError, Fault, Response, Step,
};
use serde_json::Value;
use vstd::prelude::*;
use vstd::utf8::encode_utf8;

verus! {

/// Whether every character of a text stands for itself in a JSON string.
pub open spec fn plain(text: Seq<char>) -> bool {
    forall|i: int|
        0 <= i < text.len() ==> {
            let c = #[trigger] text[i];
            c >= '\u{20}' && c != '"' && c != '\\'
        }
}

proof fn lemma_plain_stays(text: Seq<char>)
    requires
        plain(text),
    ensures
        escaped(text) == text,
    decreases text.len(),
{
    if text.len() > 0 {
        let rest = text.drop_last();
        assert(plain(rest)) by {
            assert forall|i: int| 0 <= i < rest.len() implies {
                let c = #[trigger] rest[i];
                c >= '\u{20}' && c != '"' && c != '\\'
            } by {
                assert(rest[i] == text[i]);
            }
        }
        lemma_plain_stays(rest);
        let c = text[text.len() - 1];
        assert(c >= '\u{20}' && c != '"' && c != '\\');
        assert(escaped(text) =~= text);
    } else {
        assert(escaped(text) =~= text);
    }
}

/// An object with one member as text.
proof fn lemma_one_member(name: Seq<char>, value: Json)
    requires
        plain(name),
    ensures
        json_text(Json::Object(seq![(name, value)])) == seq!['{', '"'] + name + seq!['"', ':']
            + json_text(value) + seq!['}'],
{
    lemma_plain_stays(name);
    let members = seq![(name, value)];
    assert(members_text(members) =~= quoted(name) + seq![':'] + json_text(value));
    assert(json_text(Json::Object(members)) =~= seq!['{', '"'] + name + seq!['"', ':'] + json_text(
        value,
    ) + seq!['}']);
}

/// An object with two members as text.
proof fn lemma_two_members(first: Seq<char>, one: Json, second: Seq<char>, two: Json)
    requires
        plain(first),
        plain(second),
    ensures
        json_text(Json::Object(seq![(first, one), (second, two)])) == seq!['{', '"'] + first + seq![
            '"',
            ':',
        ] + json_text(one) + seq![',', '"'] + second + seq!['"', ':'] + json_text(two) + seq!['}'],
{
    lemma_plain_stays(first);
    lemma_plain_stays(second);
    let members = seq![(first, one), (second, two)];
    assert(members.drop_last() =~= seq![(first, one)]);
    assert(members_text(members.drop_last()) =~= quoted(first) + seq![':'] + json_text(one));
    assert(members_text(members) =~= members_text(members.drop_last()) + seq![','] + (quoted(second)
        + seq![':'] + json_text(two)));
    assert(json_text(Json::Object(members)) =~= seq!['{', '"'] + first + seq!['"', ':'] + json_text(
        one,
    ) + seq![',', '"'] + second + seq!['"', ':'] + json_text(two) + seq!['}']);
}

/// An object with three members as text.
proof fn lemma_three_members(
    first: Seq<char>,
    one: Json,
    second: Seq<char>,
    two: Json,
    third: Seq<char>,
    three: Json,
)
    requires
        plain(first),
        plain(second),
        plain(third),
    ensures
        json_text(Json::Object(seq![(first, one), (second, two), (third, three)])) == seq!['{', '"']
            + first + seq!['"', ':'] + json_text(one) + seq![',', '"'] + second + seq!['"', ':']
            + json_text(two) + seq![',', '"'] + third + seq!['"', ':'] + json_text(three) + seq!['}'],
{
    lemma_two_members(first, one, second, two);
    lemma_plain_stays(third);
    let both = seq![(first, one), (second, two)];
    let members = seq![(first, one), (second, two), (third, three)];
    assert(members.drop_last() =~= both);
    assert(json_text(Json::Object(both)) =~= seq!['{'] + members_text(both) + seq!['}']);
    let inner = seq!['"'] + first + seq!['"', ':'] + json_text(one) + seq![',', '"'] + second + seq![
        '"',
        ':',
    ] + json_text(two);
    assert(json_text(Json::Object(both)) =~= seq!['{'] + inner + seq!['}']);
    assert((seq!['{'] + members_text(both) + seq!['}']).subrange(1, 1 + members_text(both).len() as int)
        =~= members_text(both));
    assert((seq!['{'] + inner + seq!['}']).subrange(1, 1 + inner.len() as int) =~= inner);
    assert(members_text(both) == inner);
    assert(members_text(members) =~= members_text(both) + seq![','] + (quoted(third) + seq![':']
        + json_text(three)));
    assert(json_text(Json::Object(members)) =~= seq!['{', '"'] + first + seq!['"', ':'] + json_text(
        one,
    ) + seq![',', '"'] + second + seq!['"', ':'] + json_text(two) + seq![',', '"'] + third + seq![
        '"',
        ':',
    ] + json_text(three) + seq!['}']);
}

/// A message, with its kind, as the page reads it.
pub open spec fn message_text(message: Seq<char>, kind: Seq<char>) -> Seq<char> {
    "{\"message\":"@ + quoted(message) + ",\"type\":"@ + quoted(kind) + "}"@
}

proof fn lemma_message_text(message: Seq<char>, kind: Seq<char>)
    ensures
        json_text(shown(message, kind)) == message_text(message, kind),
{
    reveal_strlit("message");
    reveal_strlit("type");
    reveal_strlit("{\"message\":");
    reveal_strlit(",\"type\":");
    reveal_strlit("}");
    lemma_two_members("message"@, Json::Text(message), "type"@, Json::Text(kind));
    assert("{\"message\":"@ =~= seq!['{', '"'] + "message"@ + seq!['"', ':']);
    assert(",\"type\":"@ =~= seq![',', '"'] + "type"@ + seq!['"', ':']);
    assert("}"@ =~= seq!['}']);
    assert(json_text(shown(message, kind)) =~= message_text(message, kind));
}

/// The event that shows a message says which message, and of what kind.
pub proof fn law_message_is_told(message: Seq<char>, kind: Seq<char>)
    ensures
        json_text(toast_json(message, kind)) == "{\"showMessage\":"@ + message_text(message, kind)
            + "}"@,
{
    reveal_strlit("showMessage");
    reveal_strlit("{\"showMessage\":");
    reveal_strlit("}");
    lemma_message_text(message, kind);
    lemma_one_member("showMessage"@, shown(message, kind));
    assert("{\"showMessage\":"@ =~= seq!['{', '"'] + "showMessage"@ + seq!['"', ':']);
    assert("}"@ =~= seq!['}']);
    assert(json_text(toast_json(message, kind)) =~= "{\"showMessage\":"@ + message_text(
        message,
        kind,
    ) + "}"@);
}

/// Who archives a product has the list of products loaded again, and is told so.
pub proof fn law_reload_is_told(message: Seq<char>)
    ensures
        json_text(reload_events(message)) == "{\"reloadAdminProductList\":true,\"showMessage\":"@
            + message_text(message, "success"@) + "}"@,
{
    reveal_strlit("reloadAdminProductList");
    reveal_strlit("showMessage");
    reveal_strlit("true");
    reveal_strlit("{\"reloadAdminProductList\":true,\"showMessage\":");
    reveal_strlit("}");
    lemma_message_text(message, "success"@);
    lemma_two_members(
        "reloadAdminProductList"@,
        Json::Flag(true),
        "showMessage"@,
        shown(message, "success"@),
    );
    assert("{\"reloadAdminProductList\":true,\"showMessage\":"@ =~= seq!['{', '"']
        + "reloadAdminProductList"@ + seq!['"', ':'] + "true"@ + seq![',', '"'] + "showMessage"@
        + seq!['"', ':']);
    assert("}"@ =~= seq!['}']);
    assert(json_text(reload_events(message))
        =~= "{\"reloadAdminProductList\":true,\"showMessage\":"@ + message_text(
        message,
        "success"@,
    ) + "}"@);
}

/// Who changes the status of an order has the list of orders loaded again, and is told so.
pub proof fn law_status_change_is_told()
    ensures
        json_text(status_changed()) == "{\"reloadAdminOrderList\":true,\"showMessage\":"@
            + message_text(
            "Status zamowienia zostal pomyslnie zaktualizowany."@,
            "success"@,
        ) + "}"@,
{
    let message = "Status zamowienia zostal pomyslnie zaktualizowany."@;
    reveal_strlit("reloadAdminOrderList");
    reveal_strlit("showMessage");
    reveal_strlit("true");
    reveal_strlit("{\"reloadAdminOrderList\":true,\"showMessage\":");
    reveal_strlit("}");
    lemma_message_text(message, "success"@);
    lemma_two_members(
        "reloadAdminOrderList"@,
        Json::Flag(true),
        "showMessage"@,
        shown(message, "success"@),
    );
    assert("{\"reloadAdminOrderList\":true,\"showMessage\":"@ =~= seq!['{', '"']
        + "reloadAdminOrderList"@ + seq!['"', ':'] + "true"@ + seq![',', '"'] + "showMessage"@
        + seq!['"', ':']);
    assert("}"@ =~= seq!['}']);
    assert(json_text(status_changed()) =~= "{\"reloadAdminOrderList\":true,\"showMessage\":"@
        + message_text(message, "success"@) + "}"@);
}

/// Who registers is told the id of the new account.
pub proof fn law_registration_is_told(user_id: Id)
    ensures
        json_text(registered(user_id)) == "{\"registrationComplete\":{\"userId\":"@ + quoted(
            uuid_text(user_id),
        ) + "},\"showMessage\":"@ + message_text(
            "Rejestracja pomyslna! Mozesz sie teraz zalogowac."@,
            "success"@,
        ) + "}"@,
{
    let message = "Rejestracja pomyslna! Mozesz sie teraz zalogowac."@;
    let id = note("userId"@, uuid_text(user_id));
    reveal_strlit("registrationComplete");
    reveal_strlit("userId");
    reveal_strlit("showMessage");
    reveal_strlit("{\"registrationComplete\":{\"userId\":");
    reveal_strlit("},\"showMessage\":");
    reveal_strlit("}");
    lemma_message_text(message, "success"@);
    lemma_one_member("userId"@, Json::Text(uuid_text(user_id)));
    lemma_two_members(
        "registrationComplete"@,
        id,
        "showMessage"@,
        shown(message, "success"@),
    );
    assert("{\"registrationComplete\":{\"userId\":"@ =~= seq!['{', '"'] + "registrationComplete"@
        + seq!['"', ':'] + seq!['{', '"'] + "userId"@ + seq!['"', ':']);
    assert("},\"showMessage\":"@ =~= seq!['}'] + seq![',', '"'] + "showMessage"@ + seq!['"', ':']);
    assert("}"@ =~= seq!['}']);
    assert(json_text(registered(user_id)) =~= "{\"registrationComplete\":{\"userId\":"@ + quoted(
        uuid_text(user_id),
    ) + "},\"showMessage\":"@ + message_text(message, "success"@) + "}"@);
}

/// Who logs in is handed the token.
pub proof fn law_login_is_told(token: Seq<char>)
    ensures
        json_text(logged_in(token)) == "{\"loginSuccessDetails\":{\"token\":"@ + quoted(token)
            + "},\"showMessage\":"@ + message_text("Zalogowano pomyslnie!"@, "success"@) + "}"@,
{
    let message = "Zalogowano pomyslnie!"@;
    let handed = note("token"@, token);
    reveal_strlit("loginSuccessDetails");
    reveal_strlit("token");
    reveal_strlit("showMessage");
    reveal_strlit("{\"loginSuccessDetails\":{\"token\":");
    reveal_strlit("},\"showMessage\":");
    reveal_strlit("}");
    lemma_message_text(message, "success"@);
    lemma_one_member("token"@, Json::Text(token));
    lemma_two_members(
        "loginSuccessDetails"@,
        handed,
        "showMessage"@,
        shown(message, "success"@),
    );
    assert("{\"loginSuccessDetails\":{\"token\":"@ =~= seq!['{', '"'] + "loginSuccessDetails"@
        + seq!['"', ':'] + seq!['{', '"'] + "token"@ + seq!['"', ':']);
    assert("},\"showMessage\":"@ =~= seq!['}'] + seq![',', '"'] + "showMessage"@ + seq!['"', ':']);
    assert("}"@ =~= seq!['}']);
    assert(json_text(logged_in(token)) =~= "{\"loginSuccessDetails\":{\"token\":"@ + quoted(token)
        + "},\"showMessage\":"@ + message_text(message, "success"@) + "}"@);
}

/// Who places an order is told its id, and the cart on the page is cleared.
pub proof fn law_order_is_told(order_id: Id)
    ensures
        json_text(order_placed(order_id)) == "{\"clearCartDisplay\":{},\"orderPlaced\":{\"orderId\":"@
            + quoted(uuid_text(order_id)) + ",\"redirectTo\":\"/\"},\"showMessage\":"@ + message_text(
            "Twoje zamowienie zostalo pomyslnie zlozone!"@,
            "success"@,
        ) + "}"@,
{
    let message = "Twoje zamowienie zostalo pomyslnie zlozone!"@;
    reveal_strlit("clearCartDisplay");
    reveal_strlit("orderPlaced");
    reveal_strlit("orderId");
    reveal_strlit("redirectTo");
    reveal_strlit("/");
    reveal_strlit("showMessage");
    reveal_strlit("{\"clearCartDisplay\":{},\"orderPlaced\":{\"orderId\":");
    reveal_strlit(",\"redirectTo\":\"/\"},\"showMessage\":");
    reveal_strlit("}");
    lemma_message_text(message, "success"@);
    lemma_plain_stays("/"@);
    let order = Json::Object(
        seq![
            ("orderId"@, Json::Text(uuid_text(order_id))),
            ("redirectTo"@, Json::Text("/"@)),
        ],
    );
    let nothing = Json::Object(Seq::empty());
    lemma_two_members(
        "orderId"@,
        Json::Text(uuid_text(order_id)),
        "redirectTo"@,
        Json::Text("/"@),
    );
    lemma_three_members(
        "clearCartDisplay"@,
        nothing,
        "orderPlaced"@,
        order,
        "showMessage"@,
        shown(message, "success"@),
    );
    assert(json_text(nothing) =~= seq!['{', '}']);
    assert("{\"clearCartDisplay\":{},\"orderPlaced\":{\"orderId\":"@ =~= seq!['{', '"']
        + "clearCartDisplay"@ + seq!['"', ':'] + seq!['{', '}'] + seq![',', '"'] + "orderPlaced"@
        + seq!['"', ':'] + seq!['{', '"'] + "orderId"@ + seq!['"', ':']);
    assert(",\"redirectTo\":\"/\"},\"showMessage\":"@ =~= seq![',', '"'] + "redirectTo"@ + seq![
        '"',
        ':',
    ] + (seq!['"'] + "/"@ + seq!['"']) + seq!['}'] + seq![',', '"'] + "showMessage"@ + seq!['"', ':']);
    assert("}"@ =~= seq!['}']);
    assert(json_text(order_placed(order_id))
        =~= "{\"clearCartDisplay\":{},\"orderPlaced\":{\"orderId\":"@ + quoted(uuid_text(order_id))
        + ",\"redirectTo\":\"/\"},\"showMessage\":"@ + message_text(message, "success"@) + "}"@);
}

/// Who adds a product is taken to the list of products.
pub proof fn law_location_is_told()
    ensures
        json_text(product_list_location())
            == "{\"path\":\"/htmx/admin/products\",\"swap\":\"innerHTML\",\"target\":\"#admin-content\"}"@,
{
    reveal_strlit("path");
    reveal_strlit("swap");
    reveal_strlit("target");
    reveal_strlit("/htmx/admin/products");
    reveal_strlit("innerHTML");
    reveal_strlit("#admin-content");
    reveal_strlit(
        "{\"path\":\"/htmx/admin/products\",\"swap\":\"innerHTML\",\"target\":\"#admin-content\"}",
    );
    lemma_plain_stays("/htmx/admin/products"@);
    lemma_plain_stays("innerHTML"@);
    lemma_plain_stays("#admin-content"@);
    lemma_three_members(
        "path"@,
        Json::Text("/htmx/admin/products"@),
        "swap"@,
        Json::Text("innerHTML"@),
        "target"@,
        Json::Text("#admin-content"@),
    );
    assert(json_text(product_list_location())
        =~= "{\"path\":\"/htmx/admin/products\",\"swap\":\"innerHTML\",\"target\":\"#admin-content\"}"@);
}

/// Header names are kept in small letters.
pub proof fn law_header_names()
    ensures
        header_key("HX-Trigger"@) == "hx-trigger"@,
        header_key("HX-Reswap"@) == "hx-reswap"@,
        header_key("HX-Location"@) == "hx-location"@,
        header_key("X-Guest-Cart-Id"@) == "x-guest-cart-id"@,
{
    reveal_strlit("HX-Trigger");
    reveal_strlit("hx-trigger");
    reveal_strlit("HX-Reswap");
    reveal_strlit("hx-reswap");
    reveal_strlit("HX-Location");
    reveal_strlit("hx-location");
    reveal_strlit("X-Guest-Cart-Id");
    reveal_strlit("x-guest-cart-id");
    assert(header_key("HX-Trigger"@) =~= "hx-trigger"@);
    assert(header_key("HX-Reswap"@) =~= "hx-reswap"@);
    assert(header_key("HX-Location"@) =~= "hx-location"@);
    assert(header_key("X-Guest-Cart-Id"@) =~= "x-guest-cart-id"@);
}

/// The headers that keep the page as it is and fire these events.
pub open spec fn page_kept(events: Seq<char>) -> Entries {
    Map::<Seq<char>, Seq<Seq<u8>>>::empty().insert(
        "hx-reswap"@,
        seq![encode_utf8("none"@)],
    ).insert("hx-trigger"@, seq![encode_utf8(events)])
}

/// Who is told something has the page left as it is and a message of that kind shown, with the status
/// and the body that go with it; the message is left out only where it holds a DEL character.
pub proof fn law_answer_is_told(
    status: u16,
    message: Seq<char>,
    kind: Seq<char>,
    body: Json,
)
    requires
        !message.contains('\u{7f}'),
        !kind.contains('\u{7f}'),
    ensures
        told(status, message, kind, body) == Ok::<Answer, Fault>(
            Answer {
                status,
                headers: page_kept("{\"showMessage\":"@ + message_text(message, kind) + "}"@),
                body: Content::Json(body),
            },
        ),
{
    law_header_names();
    law_message_is_told(message, kind);
    law_message_reaches_page(message, kind);
    assert(header_valid(json_text(toast_json(message, kind)))) by {
        if !header_valid(json_text(toast_json(message, kind))) {
            assert(with_trigger(no_headers(), toast_json(message, kind)) == no_headers());
            let events = json_text(toast_json(message, kind));
            assert(with_header(no_headers(), "HX-Trigger"@, events).contains_key(
                header_key("HX-Trigger"@),
            ));
        }
    }
    assert(quiet() == with_header(no_headers(), "HX-Reswap"@, "none"@));
}

/// A JSON object that says one thing.
pub proof fn law_note_is_read(name: Seq<char>, text: Seq<char>)
    ensures
        note(name, text) == Json::Object(seq![(name, Json::Text(text))]),
{
}

/// An error is of the kind that it names, and says what its text says.
pub proof fn law_faults_are_named(text: String)
    ensures
        AppError::NotFound@ == Fault::NotFound,
        AppError::UnauthorizedAccess(text)@ == Fault::UnauthorizedAccess(text@),
        AppError::UnprocessableEntity(text)@ == Fault::UnprocessableEntity(text@),
        AppError::Conflict(text)@ == Fault::Conflict(text@),
        AppError::Validation(text)@ == Fault::Validation(text@),
        AppError::InternalServerError(text)@ == Fault::InternalServerError(text@),
        AppError::BadRequest(text)@ == Fault::BadRequest(text@),
        AppError::SqlxError(DatabaseError::RowNotFound)@ == Fault::RowNotFound,
        AppError::SqlxError(DatabaseError::Other(text))@ == Fault::Database(text@),
        AppError::MultipartError(text)@ == Fault::Multipart(text@),
        AppError::ImageError(text)@ == Fault::Image(text@),
{
}

/// A step ends as described only where it ends, and is answered like that.
pub proof fn law_ends<S>(step: Step<S>, outcome: Result<Answer, Fault>)
    requires
        ends(step, outcome),
    ensures
        step is Finish,
        seen(step->Finish_0) == outcome,
{
}

/// An answer is known by its status, its headers and its body, an error by what it says.
pub proof fn law_answers_are_seen(response: Response, error: AppError)
    ensures
        seen(Ok(response)) == Ok::<Answer, Fault>(response@),
        seen(Err(error)) == Err::<Answer, Fault>(error@),
        response@.status == response.status,
        response@.headers == header_entries(response.headers),
        response@.body == response.body@,
{
}

/// A body is known by what it holds.
pub proof fn law_bodies_are_seen(
    value: Value,
    product: Product,
    products: Page<Product>,
    orders: Page<OrderWithCustomerInfo>,
    user: UserPublic,
    order: Order,
    cart: CartDetailsResponse,
    id: Id,
)
    ensures
        Body::Empty@ == Content::Empty,
        Body::Json(value)@ == Content::Json(json_of(value)),
        Body::Product(product)@ == Content::Product(product),
        Body::Products(products)@ == Content::Products(products),
        Body::Orders(orders)@ == Content::Orders(orders),
        Body::User(user)@ == Content::User(user),
        Body::Order(order)@ == Content::Order(order),
        Body::Cart(cart)@ == Content::Cart(cart),
        Body::EmptyCart@ == Content::EmptyCart,
        (Body::GuestCart { guest_cart_id: id, cart_details: cart })@ == (Content::GuestCart {
            guest_cart_id: id,
            cart_details: cart,
        }),
{
}

/// The details of an order are known by the order and its items in their order.
pub proof fn law_details_are_seen(details: OrderDetailsResponse)
    ensures
        Body::OrderDetails(details)@ is OrderDetails,
        Body::OrderDetails(details)@->order == details.order,
        Body::OrderDetails(details)@->items.len() == details.items@.len(),
        forall|i: int|
            0 <= i < details.items@.len() ==> {
                let shown = #[trigger] Body::OrderDetails(details)@->items[i];
                &&& shown.order_item_id == details.items@[i].order_item_id
                &&& shown.price_at_purchase == details.items@[i].price_at_purchase
                &&& shown.product == details.items@[i].product@
            },
{
}

/// A product is known by all of its columns.
pub proof fn law_product_is_seen(product: Product)
    ensures
        product@.id == product.id,
        product@.name == product.name,
        product@.description == product.description,
        product@.price == product.price,
        product@.gender == product.gender,
        product@.condition == product.condition,
        product@.category == product.category,
        product@.status == product.status,
        product@.images == product.images@,
        product@.on_sale == product.on_sale,
        product@.created_at == product.created_at,
        product@.updated_at == product.updated_at,
{
}

/// What is shown of a user is everything but the password hash.
pub proof fn law_user_is_shown(user: User)
    ensures
        user.public().id == user.id,
        user.public().email == user.email,
        user.public().role == user.role,
        user.public().created_at == user.created_at,
        user.public().updated_at == user.updated_at,
{
}

} // verus!
