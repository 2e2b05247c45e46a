//! Placing an order: the products of a cart are sold, together with their shipping, in one
//! transaction.
use crate::handlers::lookup::{product_of, ProductIndex};
use crate::headers::{header_valid, no_headers, with_header};
use crate::ids::{fresh_id, marked_random, uuid_text, write_uuid, Id, XGuestCartId};
use crate::json::{json_of, json_text, object_value, text_value, write_json, Json};
use crate::messages::{
    bare_headers, keep_page, message_value, object2, set_trigger, shown, two_members,
};
use crate::models::{
    CartItem, CheckoutFormPayload, OrderStatus, Product, ProductStatus, ShoppingCart, TokenClaims,
    ValidationErrors,
};
use crate::protocol::{
    answer, ends, refuse, Answer, AppError, Body, CartOwner, Command, Content, Fault, LabelKind,
    OrderRow, Query, Reply, Stage, Step,
};
use crate::text::{
    blank, escape_quotes, is_blank, join3, option_string_empty_as_none, present, quotes_escaped,
    same_text,
};
use serde_json::Value;
use vstd::prelude::*;

verus! {

/// A way to ship, with its price.
#[derive(Debug, Clone, Copy, PartialEq, Eq)]
pub struct Shipping {
    pub cost: i64,
    pub name: &'static str,
}

/// The way to ship that a form's key stands for.
pub open spec fn shipping_for(key: Seq<char>) -> Option<Shipping> {
    if key == "inpost"@ {
        Some(Shipping { cost: 1199, name: "Paczkomat InPost 24/7" })
    } else if key == "poczta"@ {
        Some(Shipping { cost: 1799, name: "Poczta Polska S.A." })
    } else {
        None
    }
}

/// Finds the way to ship that a form's key stands for.
pub fn shipping_method(key: &str) -> (shipping: Option<Shipping>)
    ensures
        shipping == shipping_for(key@),
{
    if same_text(key, "inpost") {
        Some(Shipping { cost: 1199, name: "Paczkomat InPost 24/7" })
    } else if same_text(key, "poczta") {
        Some(Shipping { cost: 1799, name: "Poczta Polska S.A." })
    } else {
        None
    }
}

/// Who places which order, and the form that they sent.
pub struct Checkout {
    pub order_id: Id,
    pub owner: CartOwner,
    pub guest_email: Option<String>,
    pub payload: CheckoutFormPayload,
}

/// One product of an order, with its price.
#[derive(Debug, Clone, Copy, PartialEq, Eq)]
pub struct OrderLine {
    pub product_id: Id,
    pub price: i64,
}

/// An order that is being written down.
pub struct Placing {
    pub order_id: Id,
    pub cart_id: Id,
    /// Whether the cart itself goes, with what is in it.
    pub removes_cart: bool,
    pub lines: Vec<OrderLine>,
}

/// How far placing an order has come.
pub enum CreateOrder {
    Opening(Checkout),
    FindingCart(Checkout),
    LoadingItems { checkout: Checkout, cart: ShoppingCart },
    LoadingProducts {
        checkout: Checkout,
        cart: ShoppingCart,
        items: Vec<CartItem>,
        shipping: Shipping,
    },
    ReadingPayment {
        checkout: Checkout,
        cart: ShoppingCart,
        shipping: Shipping,
        lines: Vec<OrderLine>,
        total: i64,
    },
    /// The order is being written, or its lines before `next`.
    AddingLines { placing: Placing, next: usize },
    EmptyingCart(Placing),
    RemovingCart(Placing),
    MarkingSold { order_id: Id },
    Committing { order_id: Id },
}

/// Whether a guest sends a valid form without an email address.
pub open spec fn guest_email_missing(
    claims: Option<TokenClaims>,
    guest: Option<XGuestCartId>,
    payload: CheckoutFormPayload,
    invalid: Option<ValidationErrors>,
) -> bool {
    &&& invalid is None
    &&& claims is None
    &&& guest is Some
    &&& payload.guest_checkout_email is None || blank(payload.guest_checkout_email->0@)
}

/// Tells whether a guest sends a valid form without an email address.
pub fn lacks_guest_email(
    claims: &Option<TokenClaims>,
    guest: &Option<XGuestCartId>,
    payload: &CheckoutFormPayload,
    invalid: &Option<ValidationErrors>,
) -> (yes: bool)
    ensures
        yes == guest_email_missing(*claims, *guest, *payload, *invalid),
{
    invalid.is_none() && claims.is_none() && guest.is_some() && match &payload.guest_checkout_email {
        Some(email) => is_blank(email.as_str()),
        None => true,
    }
}

/// Who places the order: the user of the token, else the guest of the header, else nobody.
pub open spec fn checkout_of(
    order_id: Id,
    claims: Option<TokenClaims>,
    guest: Option<XGuestCartId>,
    payload: CheckoutFormPayload,
) -> Option<Checkout> {
    match (claims, guest) {
        (Some(user), _) => Some(
            Checkout { order_id, owner: CartOwner::User(user.sub), guest_email: None, payload },
        ),
        (None, Some(session)) => Some(
            Checkout {
                order_id,
                owner: CartOwner::Guest(session.0),
                guest_email: present(payload.guest_checkout_email),
                payload,
            },
        ),
        (None, None) => None,
    }
}

/// The events that tell what is wrong with the form.
pub open spec fn form_errors_trigger(text: Seq<char>) -> Seq<char> {
    "{\"showMessage\": {\"message\": \"Bledy w formularzu: "@ + quotes_escaped(text)
        + "\", \"type\": \"error\"}}"@
}

/// The events that ask for another way to ship.
pub open spec fn shipping_trigger() -> Seq<char> {
    "{{\"showMessage\": {{\"message\": \"Proszę wybrać prawidłową metodę dostawy.\", \"type\": \"error\"}}}}"@
}

/// The answer to a form that cannot be used: the page stays, and the events are fired. Where the
/// events may not stand in a header, it is the server's own fault.
pub open spec fn unusable(events: Seq<char>, fault: Seq<char>) -> Result<Answer, Fault> {
    if header_valid(events) {
        Ok(
            Answer {
                status: 422,
                headers: with_header(
                    with_header(no_headers(), "HX-Trigger"@, events),
                    "HX-Reswap"@,
                    "none"@,
                ),
                body: Content::Empty,
            },
        )
    } else {
        Err(Fault::InternalServerError(fault))
    }
}

/// The events that tell of a new order.
pub open spec fn order_placed(order_id: Id) -> Json {
    Json::Object(
        seq![
            ("clearCartDisplay"@, Json::Object(Seq::empty())),
            (
                "orderPlaced"@,
                two_members(
                    "orderId"@,
                    Json::Text(uuid_text(order_id)),
                    "redirectTo"@,
                    Json::Text("/"@),
                ),
            ),
            (
                "showMessage"@,
                shown("Twoje zamowienie zostalo pomyslnie zlozone!"@, "success"@),
            ),
        ],
    )
}

/// The answer to an order that was placed.
pub open spec fn order_placed_answer(order_id: Id) -> Result<Answer, Fault> {
    if header_valid(json_text(order_placed(order_id))) {
        Ok(
            Answer {
                status: 200,
                headers: with_header(
                    no_headers(),
                    "HX-Trigger"@,
                    json_text(order_placed(order_id)),
                ),
                body: Content::Empty,
            },
        )
    } else {
        Err(Fault::InternalServerError("Failed to create HX-Trigger header"@))
    }
}

/// The lines of the order: one for each product of the cart, with the price it has now. The first
/// product that is gone or no longer for sale refuses the order.
pub open spec fn order_lines(items: Seq<CartItem>, products: Seq<Product>) -> Result<
    Seq<OrderLine>,
    Fault,
>
    decreases items.len(),
{
    if items.len() == 0 {
        Ok(Seq::empty())
    } else {
        match order_lines(items.drop_last(), products) {
            Err(fault) => Err(fault),
            Ok(lines) => match product_of(products, items.last().product_id) {
                None => Err(
                    Fault::InternalServerError(
                        "Błąd spójności danych: produkt z koszyka nie istnieje."@,
                    ),
                ),
                Some(product) => if product.status != ProductStatus::Available {
                    Err(
                        Fault::UnprocessableEntity(
                            "Produkt '"@ + product.name@
                                + "' w Twoim koszyku stał się niedostępny."@,
                        ),
                    )
                } else {
                    Ok(lines.push(OrderLine { product_id: product.id, price: product.price }))
                },
            },
        }
    }
}

/// What the lines of an order cost together.
pub open spec fn lines_total(lines: Seq<OrderLine>) -> int
    decreases lines.len(),
{
    if lines.len() == 0 {
        0
    } else {
        lines_total(lines.drop_last()) + lines.last().price
    }
}

/// Whether 64 bits hold the sum at every line before the order is complete or refused.
pub open spec fn totals_fit(items: Seq<CartItem>, products: Seq<Product>) -> bool {
    forall|k: int|
        0 <= k <= items.len() ==> {
            let lines = #[trigger] order_lines(items.take(k), products);
            lines is Ok ==> i64::MIN <= lines_total(lines->Ok_0) <= i64::MAX
        }
}

/// The ids of the products in a cart.
pub open spec fn item_products(items: Seq<CartItem>) -> Seq<Id> {
    items.map_values(|item: CartItem| item.product_id)
}

/// The ids of the products of an order.
pub open spec fn line_products(lines: Seq<OrderLine>) -> Seq<Id> {
    lines.map_values(|line: OrderLine| line.product_id)
}

/// The user whose cart it is.
pub open spec fn user_of(owner: CartOwner) -> Option<Id> {
    match owner {
        CartOwner::User(id) => Some(id),
        CartOwner::Guest(_) => None,
    }
}

/// The guest session whose cart it is.
pub open spec fn guest_of(owner: CartOwner) -> Option<Id> {
    match owner {
        CartOwner::User(_) => None,
        CartOwner::Guest(id) => Some(id),
    }
}

/// The row of the new order.
pub open spec fn order_row(
    checkout: Checkout,
    shipping: Shipping,
    total: i64,
    payment_method: String,
) -> OrderRow {
    OrderRow {
        id: checkout.order_id,
        user_id: user_of(checkout.owner),
        guest_email: present(checkout.guest_email),
        guest_session_id: guest_of(checkout.owner),
        status: OrderStatus::Pending,
        total_price: (total + shipping.cost) as i64,
        shipping_first_name: checkout.payload.shipping_first_name,
        shipping_last_name: checkout.payload.shipping_last_name,
        shipping_address_line1: checkout.payload.shipping_address_line1,
        shipping_address_line2: present(checkout.payload.shipping_address_line2),
        shipping_city: checkout.payload.shipping_city,
        shipping_postal_code: checkout.payload.shipping_postal_code,
        shipping_country: checkout.payload.shipping_country,
        shipping_phone: checkout.payload.shipping_phone,
        payment_method,
        shipping_method_name: shipping.name,
    }
}

/// The first step of placing an order under a given id.
pub open spec fn order_begins(
    order_id: Id,
    claims: Option<TokenClaims>,
    guest: Option<XGuestCartId>,
    payload: CheckoutFormPayload,
    invalid: Option<ValidationErrors>,
    step: Step<CreateOrder>,
) -> bool {
    match invalid {
        Some(errors) => ends(
            step,
            unusable(
                form_errors_trigger(errors.text@),
                "Failed to create HX-Trigger header"@,
            ),
        ),
        None => match checkout_of(order_id, claims, guest, payload) {
            Some(checkout) => step == Step::Perform(CreateOrder::Opening(checkout), Command::Begin),
            None => ends(
                step,
                Err(
                    Fault::UnauthorizedAccess(
                        "Nie można zidentyfikować użytkownika ani sesji gościa."@,
                    ),
                ),
            ),
        },
    }
}

/// The step at which the line `next` is written, or after the last the cart emptied.
pub open spec fn line_or_cart(placing: Placing, next: int) -> Step<CreateOrder> {
    if next < placing.lines@.len() {
        Step::Perform(
            CreateOrder::AddingLines { placing, next: (next + 1) as usize },
            Command::Query(
                Query::InsertOrderItem {
                    order_id: placing.order_id,
                    product_id: placing.lines@[next].product_id,
                    price: placing.lines@[next].price,
                },
            ),
        )
    } else {
        Step::Perform(
            CreateOrder::EmptyingCart(placing),
            Command::Query(Query::DeleteCartItems { cart_id: placing.cart_id }),
        )
    }
}

/// Whether at this step the products of the order are marked as sold, or, where it has none, the
/// transaction is closed.
pub open spec fn sells(placing: Placing, step: Step<CreateOrder>) -> bool {
    if placing.lines@.len() == 0 {
        step == Step::Perform(
            CreateOrder::Committing { order_id: placing.order_id },
            Command::Commit,
        )
    } else {
        step matches Step::Perform(stage, Command::Query(Query::SetStatuses { ids, status }))
            && stage == CreateOrder::MarkingSold { order_id: placing.order_id }
            && ids@ == line_products(placing.lines@) && status == ProductStatus::Sold
    }
}

/// Answers a form that cannot be used.
fn unusable_form(events: &str, fault: &'static str) -> (step: Step<CreateOrder>)
    ensures
        ends(step, unusable(events@, fault@)),
{
    let mut headers = bare_headers();
    if set_trigger(&mut headers, events) {
        keep_page(&mut headers);
        answer(422, headers, Body::Empty)
    } else {
        refuse(AppError::InternalServerError(fault.to_owned()))
    }
}

/// Answers an order that was placed.
fn placed(order_id: Id) -> (step: Step<CreateOrder>)
    ensures
        ends(step, order_placed_answer(order_id)),
{
    let id = write_uuid(order_id);
    proof {
        reveal_strlit("clearCartDisplay");
        reveal_strlit("orderPlaced");
        reveal_strlit("showMessage");
        reveal_strlit("orderId");
        reveal_strlit("redirectTo");
    }
    let none: Vec<(&'static str, Value)> = Vec::new();
    let ghost no_members = none@;
    let nothing = object_value(none);
    assert(no_members.map_values(|member: (&'static str, Value)| (member.0@, json_of(member.1)))
        =~= Seq::empty());
    let order = object2("orderId", text_value(id.as_str()), "redirectTo", text_value("/"));
    let message = message_value("Twoje zamowienie zostalo pomyslnie zlozone!", "success");
    let members = vec![
        ("clearCartDisplay", nothing),
        ("orderPlaced", order),
        ("showMessage", message),
    ];
    let ghost given = members@;
    let events = object_value(members);
    assert(given.map_values(|member: (&'static str, Value)| (member.0@, json_of(member.1)))
        =~= order_placed(order_id)->Object_0);
    let mut headers = bare_headers();
    if set_trigger(&mut headers, write_json(&events).as_str()) {
        answer(200, headers, Body::Empty)
    } else {
        refuse(AppError::InternalServerError("Failed to create HX-Trigger header".to_owned()))
    }
}

/// Begins to place an order under a given id. A guest's valid form has an email address.
pub fn place_order(
    order_id: Id,
    claims: Option<TokenClaims>,
    guest: Option<XGuestCartId>,
    payload: CheckoutFormPayload,
    invalid: Option<ValidationErrors>,
) -> (step: Step<CreateOrder>)
    requires
        !guest_email_missing(claims, guest, payload, invalid),
    ensures
        order_begins(order_id, claims, guest, payload, invalid, step),
{
    if let Some(errors) = invalid {
        let text = escape_quotes(errors.text.as_str());
        let events = join3(
            "{\"showMessage\": {\"message\": \"Bledy w formularzu: ",
            text.as_str(),
            "\", \"type\": \"error\"}}",
        );
        return unusable_form(events.as_str(), "Failed to create HX-Trigger header");
    }
    let checkout = match (claims, guest) {
        (Some(user), _) => Checkout {
            order_id,
            owner: CartOwner::User(user.sub),
            guest_email: None,
            payload,
        },
        (None, Some(session)) => {
            let email = match &payload.guest_checkout_email {
                Some(email) => Some(email.clone()),
                None => None,
            };
            Checkout {
                order_id,
                owner: CartOwner::Guest(session.0),
                guest_email: option_string_empty_as_none(email),
                payload,
            }
        },
        (None, None) => {
            return refuse(
                AppError::UnauthorizedAccess(
                    "Nie można zidentyfikować użytkownika ani sesji gościa.".to_owned(),
                ),
            );
        },
    };
    Step::Perform(CreateOrder::Opening(checkout), Command::Begin)
}

/// Begins to place an order under a new random id. A guest's valid form has an email address.
pub fn create_order_handler(
    claims: Option<TokenClaims>,
    guest: Option<XGuestCartId>,
    payload: CheckoutFormPayload,
    invalid: Option<ValidationErrors>,
) -> (step: Step<CreateOrder>)
    requires
        !guest_email_missing(claims, guest, payload, invalid),
    ensures
        exists|order_id: Id|
            marked_random(order_id) && #[trigger] order_begins(
                order_id,
                claims,
                guest,
                payload,
                invalid,
                step,
            ),
{
    let order_id = fresh_id();
    place_order(order_id, claims, guest, payload, invalid)
}

/// Makes the lines of the order, and adds up their prices.
fn make_lines(items: &Vec<CartItem>, products: &Vec<Product>) -> (made: Result<
    (Vec<OrderLine>, i64),
    AppError,
>)
    requires
        totals_fit(items@, products@),
    ensures
        match order_lines(items@, products@) {
            Ok(lines) => made matches Ok((given, total)) && given@ == lines && total == lines_total(
                lines,
            ),
            Err(fault) => made matches Err(error) && error@ == fault,
        },
{
    let index = ProductIndex::new(products);
    let mut lines: Vec<OrderLine> = Vec::new();
    let mut total: i64 = 0;
    assert(items@.take(0) =~= Seq::empty());
    for i in 0..items.len()
        invariant
            index.indexes(products@),
            totals_fit(items@, products@),
            order_lines(items@.take(i as int), products@) == Ok::<Seq<OrderLine>, Fault>(lines@),
            total == lines_total(lines@),
    {
        let ghost before = items@.take(i as int);
        let ghost after = items@.take(i + 1);
        proof {
            assert(after.drop_last() =~= before);
            assert(after.last() == items@[i as int]);
        }
        match index.find(products, items[i].product_id) {
            Some(product) => {
                if product.status != ProductStatus::Available {
                    let text = join3(
                        "Produkt '",
                        product.name.as_str(),
                        "' w Twoim koszyku stał się niedostępny.",
                    );
                    proof {
                        lemma_refused_stays(items@, products@, i + 1);
                    }
                    return Err(AppError::UnprocessableEntity(text));
                }
                let line = OrderLine { product_id: product.id, price: product.price };
                let ghost so_far = lines@;
                lines.push(line);
                proof {
                    assert(lines@.drop_last() =~= so_far);
                    assert(order_lines(after, products@) == Ok::<Seq<OrderLine>, Fault>(lines@));
                }
                total = total + product.price;
            },
            None => {
                proof {
                    lemma_refused_stays(items@, products@, i + 1);
                }
                return Err(
                    AppError::InternalServerError(
                        "Błąd spójności danych: produkt z koszyka nie istnieje.".to_owned(),
                    ),
                );
            },
        }
    }
    assert(items@.take(items.len() as int) =~= items@);
    Ok((lines, total))
}

/// Tells whether 64 bits hold the sum at every line.
fn sums_fit(items: &Vec<CartItem>, products: &Vec<Product>) -> (yes: bool)
    ensures
        yes == totals_fit(items@, products@),
{
    let index = ProductIndex::new(products);
    let ghost mut lines: Seq<OrderLine> = Seq::empty();
    let mut total: i64 = 0;
    assert(items@.take(0) =~= Seq::empty());
    for i in 0..items.len()
        invariant
            index.indexes(products@),
            order_lines(items@.take(i as int), products@) == Ok::<Seq<OrderLine>, Fault>(lines),
            total == lines_total(lines),
            forall|k: int|
                0 <= k <= i ==> {
                    let made = #[trigger] order_lines(items@.take(k), products@);
                    made is Ok ==> i64::MIN <= lines_total(made->Ok_0) <= i64::MAX
                },
    {
        let ghost after = items@.take(i + 1);
        proof {
            assert(after.drop_last() =~= items@.take(i as int));
            assert(after.last() == items@[i as int]);
        }
        let available = match index.find(products, items[i].product_id) {
            Some(product) => {
                if product.status == ProductStatus::Available {
                    Some(product.price)
                } else {
                    None
                }
            },
            None => None,
        };
        match available {
            Some(price) => {
                proof {
                    let line = OrderLine { product_id: items@[i as int].product_id, price };
                    let so_far = lines;
                    lines = lines.push(line);
                    assert(lines.drop_last() =~= so_far);
                    assert(order_lines(after, products@) == Ok::<Seq<OrderLine>, Fault>(lines));
                }
                match total.checked_add(price) {
                    Some(sum) => {
                        total = sum;
                    },
                    None => {
                        assert(!totals_fit(items@, products@));
                        return false;
                    },
                }
            },
            None => {
                proof {
                    assert forall|k: int| 0 <= k <= items@.len() implies {
                        let made = #[trigger] order_lines(items@.take(k), products@);
                        made is Ok ==> i64::MIN <= lines_total(made->Ok_0) <= i64::MAX
                    } by {
                        if k > i {
                            assert(items@.take(k).take(i + 1) =~= after);
                            lemma_refused_stays(items@.take(k), products@, i + 1);
                        }
                    }
                }
                return true;
            },
        }
    }
    true
}

/// A cart that is refused at some item is refused for the same reason with more items.
proof fn lemma_refused_stays(items: Seq<CartItem>, products: Seq<Product>, count: int)
    requires
        0 <= count <= items.len(),
        order_lines(items.take(count), products) is Err,
    ensures
        order_lines(items, products) == order_lines(items.take(count), products),
    decreases items.len(),
{
    if count < items.len() {
        assert(items.drop_last().take(count) =~= items.take(count));
        lemma_refused_stays(items.drop_last(), products, count);
    } else {
        assert(items.take(count) =~= items);
    }
}

/// Collects the ids of the products in a cart.
fn products_in(items: &Vec<CartItem>) -> (ids: Vec<Id>)
    ensures
        ids@ == item_products(items@),
{
    let mut ids: Vec<Id> = Vec::new();
    for i in 0..items.len()
        invariant
            ids@ =~= item_products(items@).take(i as int),
    {
        ids.push(items[i].product_id);
    }
    ids
}

/// Collects the ids of the products of an order.
fn products_sold(lines: &Vec<OrderLine>) -> (ids: Vec<Id>)
    ensures
        ids@ == line_products(lines@),
{
    let mut ids: Vec<Id> = Vec::new();
    for i in 0..lines.len()
        invariant
            ids@ =~= line_products(lines@).take(i as int),
    {
        ids.push(lines[i].product_id);
    }
    ids
}

/// Writes the line `next`, or after the last one empties the cart.
fn write_line(placing: Placing, next: usize) -> (step: Step<CreateOrder>)
    ensures
        step == line_or_cart(placing, next as int),
{
    if next < placing.lines.len() {
        let line = placing.lines[next];
        let query = Query::InsertOrderItem {
            order_id: placing.order_id,
            product_id: line.product_id,
            price: line.price,
        };
        Step::Perform(
            CreateOrder::AddingLines { placing, next: next + 1 },
            Command::Query(query),
        )
    } else {
        let cart_id = placing.cart_id;
        Step::Perform(
            CreateOrder::EmptyingCart(placing),
            Command::Query(Query::DeleteCartItems { cart_id }),
        )
    }
}

/// Marks the products of the order as sold.
fn sell(placing: Placing) -> (step: Step<CreateOrder>)
    ensures
        sells(placing, step),
{
    let order_id = placing.order_id;
    if placing.lines.len() == 0 {
        Step::Perform(CreateOrder::Committing { order_id }, Command::Commit)
    } else {
        let ids = products_sold(&placing.lines);
        Step::Perform(
            CreateOrder::MarkingSold { order_id },
            Command::Query(Query::SetStatuses { ids, status: ProductStatus::Sold }),
        )
    }
}

impl Stage for CreateOrder {
    /// The sums of the prices fit in 64 bits.
    open spec fn admits(self, reply: Reply) -> bool {
        match (self, reply) {
            (CreateOrder::LoadingProducts { items, .. }, Reply::Products(products)) => totals_fit(
                items@,
                products@,
            ),
            (
                CreateOrder::ReadingPayment { total, shipping, .. },
                Reply::Label(_),
            ) => i64::MIN <= total + shipping.cost <= i64::MAX,
            _ => true,
        }
    }

    open spec fn follows(self, reply: Reply, step: Step<CreateOrder>) -> bool {
        match (self, reply) {
            (_, Reply::Failed(error)) => step == Step::<CreateOrder>::Finish(Err(error)),
            (CreateOrder::Opening(checkout), Reply::Done) => step == Step::Perform(
                CreateOrder::FindingCart(checkout),
                Command::Query(Query::SelectCart { owner: checkout.owner, lock: true }),
            ),
            (CreateOrder::FindingCart(_), Reply::Cart(None)) => ends(
                step,
                Err(
                    Fault::UnprocessableEntity(
                        "Twój koszyk nie został znaleziony lub jest pusty."@,
                    ),
                ),
            ),
            (CreateOrder::FindingCart(checkout), Reply::Cart(Some(cart))) => step == Step::Perform(
                CreateOrder::LoadingItems { checkout, cart },
                Command::Query(Query::SelectCartItems { cart_id: cart.id }),
            ),
            (
                CreateOrder::LoadingItems { checkout, cart },
                Reply::CartItems(items),
            ) => if items@.len() == 0 {
                ends(step, Err(Fault::UnprocessableEntity("Twój koszyk jest pusty."@)))
            } else {
                match shipping_for(checkout.payload.shipping_method_key@) {
                    None => ends(
                        step,
                        unusable(
                            shipping_trigger(),
                            "Failed to create HX-Trigger for shipping method"@,
                        ),
                    ),
                    Some(shipping) => step matches Step::Perform(
                        stage,
                        Command::Query(Query::SelectProducts { ids, lock }),
                    ) && stage == (CreateOrder::LoadingProducts { checkout, cart, items, shipping })
                        && ids@ == item_products(items@) && lock,
                }
            },
            (
                CreateOrder::LoadingProducts { checkout, cart, items, shipping },
                Reply::Products(products),
            ) => match order_lines(items@, products@) {
                Err(fault) => ends(step, Err(fault)),
                Ok(lines) => step matches Step::Perform(stage, command)
                    && stage matches CreateOrder::ReadingPayment {
                    checkout: kept,
                    cart: kept_cart,
                    shipping: kept_shipping,
                    lines: made,
                    total,
                } && kept == checkout && kept_cart == cart && kept_shipping == shipping && made@
                    == lines && total == lines_total(lines) && command == (Command::ReadLabel {
                    kind: LabelKind::PaymentMethod,
                    text: checkout.payload.payment_method,
                }),
            },
            (CreateOrder::ReadingPayment { .. }, Reply::Unreadable(_)) => ends(
                step,
                Err(Fault::Validation("Nieprawidłowa metoda płatności."@)),
            ),
            (
                CreateOrder::ReadingPayment { checkout, cart, shipping, lines, total },
                Reply::Label(payment_method),
            ) => step == Step::Perform(
                CreateOrder::AddingLines {
                    placing: Placing {
                        order_id: checkout.order_id,
                        cart_id: cart.id,
                        removes_cart: checkout.owner is Guest && cart.guest_session_id is Some,
                        lines,
                    },
                    next: 0,
                },
                Command::Query(
                    Query::InsertOrder {
                        order: order_row(checkout, shipping, total, payment_method),
                    },
                ),
            ),
            (CreateOrder::AddingLines { placing, next }, Reply::Affected(_)) => step
                == line_or_cart(placing, next as int),
            (CreateOrder::EmptyingCart(placing), Reply::Affected(_)) => if placing.removes_cart {
                step == Step::Perform(
                    CreateOrder::RemovingCart(placing),
                    Command::Query(Query::DeleteCart { id: placing.cart_id }),
                )
            } else {
                sells(placing, step)
            },
            (CreateOrder::RemovingCart(placing), Reply::Affected(_)) => sells(placing, step),
            (CreateOrder::MarkingSold { order_id }, Reply::Affected(_)) => step == Step::Perform(
                CreateOrder::Committing { order_id },
                Command::Commit,
            ),
            (CreateOrder::Committing { order_id }, Reply::Done) => ends(
                step,
                order_placed_answer(order_id),
            ),
            _ => step is Unexpected,
        }
    }

    fn accepts(&self, reply: &Reply) -> (yes: bool) {
        match (self, reply) {
            (CreateOrder::LoadingProducts { items, .. }, Reply::Products(products)) => sums_fit(
                items,
                products,
            ),
            (CreateOrder::ReadingPayment { total, shipping, .. }, Reply::Label(_)) => {
                total.checked_add(shipping.cost).is_some()
            },
            _ => true,
        }
    }

    fn resume(self, reply: Reply) -> (step: Step<CreateOrder>) {
        match (self, reply) {
            (_, Reply::Failed(error)) => refuse(error),
            (CreateOrder::Opening(checkout), Reply::Done) => {
                let owner = checkout.owner;
                Step::Perform(
                    CreateOrder::FindingCart(checkout),
                    Command::Query(Query::SelectCart { owner, lock: true }),
                )
            },
            (CreateOrder::FindingCart(_), Reply::Cart(None)) => refuse(
                AppError::UnprocessableEntity(
                    "Twój koszyk nie został znaleziony lub jest pusty.".to_owned(),
                ),
            ),
            (CreateOrder::FindingCart(checkout), Reply::Cart(Some(cart))) => {
                let cart_id = cart.id;
                Step::Perform(
                    CreateOrder::LoadingItems { checkout, cart },
                    Command::Query(Query::SelectCartItems { cart_id }),
                )
            },
            (CreateOrder::LoadingItems { checkout, cart }, Reply::CartItems(items)) => {
                if items.len() == 0 {
                    return refuse(
                        AppError::UnprocessableEntity("Twój koszyk jest pusty.".to_owned()),
                    );
                }
                match shipping_method(checkout.payload.shipping_method_key.as_str()) {
                    None => unusable_form(
                        "{{\"showMessage\": {{\"message\": \"Proszę wybrać prawidłową metodę dostawy.\", \"type\": \"error\"}}}}",
                        "Failed to create HX-Trigger for shipping method",
                    ),
                    Some(shipping) => {
                        let ids = products_in(&items);
                        Step::Perform(
                            CreateOrder::LoadingProducts { checkout, cart, items, shipping },
                            Command::Query(Query::SelectProducts { ids, lock: true }),
                        )
                    },
                }
            },
            (
                CreateOrder::LoadingProducts { checkout, cart, items, shipping },
                Reply::Products(products),
            ) => match make_lines(&items, &products) {
                Err(error) => refuse(error),
                Ok((lines, total)) => {
                    let text = checkout.payload.payment_method.clone();
                    Step::Perform(
                        CreateOrder::ReadingPayment { checkout, cart, shipping, lines, total },
                        Command::ReadLabel { kind: LabelKind::PaymentMethod, text },
                    )
                },
            },
            (CreateOrder::ReadingPayment { .. }, Reply::Unreadable(_)) => refuse(
                AppError::Validation("Nieprawidłowa metoda płatności.".to_owned()),
            ),
            (
                CreateOrder::ReadingPayment { checkout, cart, shipping, lines, total },
                Reply::Label(payment_method),
            ) => {
                let user_id = match checkout.owner {
                    CartOwner::User(id) => Some(id),
                    CartOwner::Guest(_) => None,
                };
                let guest_session_id = match checkout.owner {
                    CartOwner::User(_) => None,
                    CartOwner::Guest(id) => Some(id),
                };
                let placing = Placing {
                    order_id: checkout.order_id,
                    cart_id: cart.id,
                    removes_cart: user_id.is_none() && cart.guest_session_id.is_some(),
                    lines,
                };
                let payload = checkout.payload;
                let order = OrderRow {
                    id: checkout.order_id,
                    user_id,
                    guest_email: option_string_empty_as_none(checkout.guest_email),
                    guest_session_id,
                    status: OrderStatus::Pending,
                    total_price: total + shipping.cost,
                    shipping_first_name: payload.shipping_first_name,
                    shipping_last_name: payload.shipping_last_name,
                    shipping_address_line1: payload.shipping_address_line1,
                    shipping_address_line2: option_string_empty_as_none(
                        payload.shipping_address_line2,
                    ),
                    shipping_city: payload.shipping_city,
                    shipping_postal_code: payload.shipping_postal_code,
                    shipping_country: payload.shipping_country,
                    shipping_phone: payload.shipping_phone,
                    payment_method,
                    shipping_method_name: shipping.name,
                };
                Step::Perform(
                    CreateOrder::AddingLines { placing, next: 0 },
                    Command::Query(Query::InsertOrder { order }),
                )
            },
            (CreateOrder::AddingLines { placing, next }, Reply::Affected(_)) => write_line(
                placing,
                next,
            ),
            (CreateOrder::EmptyingCart(placing), Reply::Affected(_)) => {
                if placing.removes_cart {
                    let id = placing.cart_id;
                    Step::Perform(
                        CreateOrder::RemovingCart(placing),
                        Command::Query(Query::DeleteCart { id }),
                    )
                } else {
                    sell(placing)
                }
            },
            (CreateOrder::RemovingCart(placing), Reply::Affected(_)) => sell(placing),
            (CreateOrder::MarkingSold { order_id }, Reply::Affected(_)) => Step::Perform(
                CreateOrder::Committing { order_id },
                Command::Commit,
            ),
            (CreateOrder::Committing { order_id }, Reply::Done) => placed(order_id),
            _ => Step::Unexpected,
        }
    }
}

} // verus!
