//! Why an order is refused, and that no reply is turned down without need.
use crate::handlers::accounts::{Login, Register, UpsertShipping};
use crate::handlers::carts::{ChangeCart, ShowCart};
use crate::handlers::create_order::{
    form_errors_trigger, guest_email_missing, item_products, lines_total, order_begins,
    lacks_guest_email, order_lines, shipping_trigger, totals_fit, unusable, Checkout, CreateOrder, OrderLine,
    Shipping,
};
use crate::handlers::create_product::CreateProduct;
use crate::handlers::listings::{ListOrders, ListProducts};
use crate::handlers::lookup::{lemma_place_of, place_of};
use crate::handlers::orders::{DeleteOrder, GetOrder, UpdateOrderStatus};
use crate::handlers::products::{ArchivizeProduct, DeleteProduct, GetProduct};
use crate::handlers::update_product::UpdateProduct;
use crate::headers::header_valid;
use crate::ids::{Id, XGuestCartId};
use crate::laws::answers::{law_order_placed_is_told, law_unknown_shipping_is_told};
use crate::laws::carts::one_cart_each;
use crate::laws::orders::law_order_placed;
use crate::laws::placed_orders::buyers_cart;
use crate::laws::told::{law_header_names, page_kept};
use crate::models::{
    CartItem, CheckoutFormPayload, LoginPayload, Product, ProductStatus, RegistrationPayload,
    ShoppingCart, TokenClaims, ValidationErrors,
};
use crate::protocol::{
    ends, seen, Answer, AppError, CartOwner, Command, Content, Fault, LabelKind, Outcome, Reply,
    Stage, Step,
};
use crate::store::{
    at_rest, in_items, lemma_goes_on, owned, runs, tells_products, Store, World,
};
use crate::text::{quotes_escaped, white_space};
use vstd::prelude::*;

verus! {

/// The answer to who asks for an unknown way to ship.
pub open spec fn shipping_asked_for() -> Result<Answer, Fault> {
    Ok(
        Answer {
            status: 422,
            headers: page_kept(
                "{{\"showMessage\": {{\"message\": \"Proszę wybrać prawidłową metodę dostawy.\", \"type\": \"error\"}}}}"@,
            ),
            body: Content::Empty,
        },
    )
}

proof fn lemma_shipping_asked_for(fault: Seq<char>)
    ensures
        unusable(shipping_trigger(), fault) == shipping_asked_for(),
{
    law_unknown_shipping_is_told(fault);
    law_header_names();
    reveal_strlit("hx-trigger");
    reveal_strlit("hx-reswap");
    assert("hx-trigger"@.len() == 10);
    assert("hx-reswap"@.len() == 9);
    assert(unusable(shipping_trigger(), fault)->Ok_0.headers =~= shipping_asked_for()->Ok_0.headers);
}

/// A checkout form with broken rules is refused, and the page is told what is wrong with it, the
/// quotation marks behind backslashes.
pub proof fn law_broken_checkout_is_told(
    order_id: Id,
    claims: Option<TokenClaims>,
    guest: Option<XGuestCartId>,
    payload: CheckoutFormPayload,
    errors: ValidationErrors,
    step: Step<CreateOrder>,
)
    requires
        order_begins(order_id, claims, guest, payload, Some(errors), step),
    ensures
        ({
            let events = "{\"showMessage\": {\"message\": \"Bledy w formularzu: "@ + quotes_escaped(
                errors.text@,
            ) + "\", \"type\": \"error\"}}"@;
            if header_valid(events) {
                ends(
                    step,
                    Ok(
                        (Answer {
                            status: 422,
                            headers: page_kept(events),
                            body: Content::Empty,
                        }),
                    ),
                )
            } else {
                ends(
                    step,
                    Err(Fault::InternalServerError("Failed to create HX-Trigger header"@)),
                )
            }
        }),
{
    let events = form_errors_trigger(errors.text@);
    law_header_names();
    reveal_strlit("hx-trigger");
    reveal_strlit("hx-reswap");
    assert("hx-trigger"@.len() == 10);
    assert("hx-reswap"@.len() == 9);
    if header_valid(events) {
        assert(unusable(events, "Failed to create HX-Trigger header"@)->Ok_0.headers =~= page_kept(
            events,
        ));
    }
}

/// What speaks against a product of a cart: that it is gone, or that it is not for sale.
pub open spec fn product_fault(store: Store, product_id: Id, fault: Fault) -> bool {
    if !store.products.contains_key(product_id) {
        fault == Fault::InternalServerError(
            "Błąd spójności danych: produkt z koszyka nie istnieje."@,
        )
    } else {
        &&& store.products[product_id].status != ProductStatus::Available
        &&& fault == Fault::UnprocessableEntity(
            "Produkt '"@ + store.products[product_id].name@
                + "' w Twoim koszyku stał się niedostępny."@,
        )
    }
}

proof fn lemma_lines_refused(
    store: Store,
    items: Seq<CartItem>,
    ids: Seq<Id>,
    products: Seq<Product>,
) -> (place: int)
    requires
        order_lines(items, products) is Err,
        tells_products(store, ids, products),
        forall|i: int| 0 <= i < items.len() ==> ids.contains((#[trigger] items[i]).product_id),
    ensures
        0 <= place < items.len(),
        product_fault(store, items[place].product_id, order_lines(items, products)->Err_0),
    decreases items.len(),
{
    let rest = items.drop_last();
    if order_lines(rest, products) is Err {
        assert forall|i: int| 0 <= i < rest.len() implies ids.contains(
            (#[trigger] rest[i]).product_id,
        ) by {
            assert(rest[i] == items[i]);
        }
        lemma_lines_refused(store, rest, ids, products)
    } else {
        let id = items[items.len() - 1].product_id;
        assert(ids.contains(id));
        lemma_place_of(products, id);
        if place_of(products, id) is None {
            let k = choose|k: int| 0 <= k < ids.len() && ids[k] == id;
            assert(!store.products.contains_key(ids[k]));
        } else {
            let product = products[place_of(products, id)->0];
            assert(product@ == store.products[product.id]);
        }
        items.len() - 1
    }
}

/// An order is refused for one reason: the buyer has no cart, the cart is empty, the way to ship is
/// unknown, a product is gone or not for sale, or the way to pay is unknown; and the buyer is told
/// which.
pub proof fn law_order_is_refused(
    order_id: Id,
    claims: Option<TokenClaims>,
    guest: Option<XGuestCartId>,
    payload: CheckoutFormPayload,
    first: Step<CreateOrder>,
    start: World,
    outcome: Outcome,
    end: World,
    fuel: nat,
)
    requires
        order_begins(order_id, claims, guest, payload, None, first),
        claims is Some || guest is Some,
        runs(first, start, outcome, end, fuel),
        at_rest(start),
        !end.failed,
        one_cart_each(start.committed),
        !(outcome matches Ok(response) && response.status == 200),
    ensures
        ({
            let store = start.committed;
            let key = payload.shipping_method_key@;
            ||| {
                &&& forall|cart_id: Id| !#[trigger] buyers_cart(store, cart_id, claims, guest)
                &&& seen(outcome) == Err::<Answer, Fault>(
                    Fault::UnprocessableEntity(
                        "Twój koszyk nie został znaleziony lub jest pusty."@,
                    ),
                )
            }
            ||| exists|cart_id: Id|
                {
                    &&& #[trigger] buyers_cart(store, cart_id, claims, guest)
                    &&& cart_is_refused(store, cart_id, payload, start, seen(outcome))
                }
        }),
{
    let store = start.committed;
    let (r1, w1, s1) = lemma_goes_on(first, start, outcome, end, fuel);
    let (r2, w2, s2) = lemma_goes_on(s1, w1, outcome, end, (fuel - 1) as nat);
    let checkout = first->Perform_0->Opening_0;
    if s2 is Perform {
        let cart = r2->Cart_0->0;
        assert(buyers_cart(store, cart.id, claims, guest));
        let (r3, w3, s3) = lemma_goes_on(s2, w2, outcome, end, (fuel - 2) as nat);
        let items = r3->CartItems_0@;
        if items.len() == 0 {
            assert forall|id: Id| !#[trigger] store.cart_items.contains((cart.id, id)) by {
                if store.cart_items.contains((cart.id, id)) {
                    assert(in_items(items, id));
                }
            }
        } else {
            assert(in_items(items, items[0].product_id));
            assert(store.cart_items.contains((cart.id, items[0].product_id)));
            if s3 is Perform {
                let (r4, w4, s4) = lemma_goes_on(s3, w3, outcome, end, (fuel - 3) as nat);
                let products = r4->Products_0@;
                if s4 is Perform {
                    let (r5, w5, s5) = lemma_goes_on(s4, w4, outcome, end, (fuel - 4) as nat);
                    if s5 is Perform {
                        law_order_placed(checkout, start, outcome, end, fuel);
                        lemma_no_commit(s5, w5, outcome, end, (fuel - 5) as nat);
                    }
                } else {
                    assert forall|i: int| 0 <= i < items.len() implies item_products(
                        items,
                    ).contains((#[trigger] items[i]).product_id) by {
                        assert(item_products(items)[i] == items[i].product_id);
                    }
                    let place = lemma_lines_refused(store, items, item_products(items), products);
                    assert(in_items(items, items[place].product_id));
                    assert(store.cart_items.contains((cart.id, items[place].product_id)));
                }
            } else {
                lemma_shipping_asked_for("Failed to create HX-Trigger for shipping method"@);
            }
        }
    } else {
        assert forall|cart_id: Id| !#[trigger] buyers_cart(store, cart_id, claims, guest) by {
            if buyers_cart(store, cart_id, claims, guest) {
                assert(store.carts.contains_key(cart_id));
                assert(owned(checkout.owner, store.carts[cart_id]));
            }
        }
    }
}

/// Once an order is written down without a failure, it is committed.
proof fn lemma_no_commit(
    step: Step<CreateOrder>,
    world: World,
    outcome: Outcome,
    end: World,
    fuel: nat,
)
    requires
        runs(step, world, outcome, end, fuel),
        step matches Step::Perform(stage, _) && (stage is AddingLines || stage is EmptyingCart
            || stage is RemovingCart || stage is MarkingSold || stage is Committing),
        !end.failed,
    ensures
        outcome matches Ok(response) && response.status == 200,
    decreases fuel,
{
    let (r1, w1, s1) = lemma_goes_on(step, world, outcome, end, fuel);
    lemma_failure_stays(s1, w1, outcome, end, (fuel - 1) as nat);
    if s1 is Perform {
        lemma_no_commit(s1, w1, outcome, end, (fuel - 1) as nat);
    } else {
        law_order_placed_is_told(step->Perform_0->Committing_order_id);
    }
}

/// What failed once stays failed.
proof fn lemma_failure_stays(
    step: Step<CreateOrder>,
    world: World,
    outcome: Outcome,
    end: World,
    fuel: nat,
)
    requires
        runs(step, world, outcome, end, fuel),
    ensures
        world.failed ==> end.failed,
    decreases fuel,
{
    if step is Perform {
        let (r1, w1, s1) = lemma_goes_on(step, world, outcome, end, fuel);
        lemma_failure_stays(s1, w1, outcome, end, (fuel - 1) as nat);
    }
}

/// Whether an order for what this cart holds is refused, and rightly so.
pub open spec fn cart_is_refused(
    store: Store,
    cart_id: Id,
    payload: CheckoutFormPayload,
    start: World,
    answer: Result<Answer, Fault>,
) -> bool {
    let key = payload.shipping_method_key@;
    let empty = forall|id: Id| !#[trigger] store.cart_items.contains((cart_id, id));
    let known = key == "inpost"@ || key == "poczta"@;
    ||| empty && answer == Err::<Answer, Fault>(
        Fault::UnprocessableEntity("Twój koszyk jest pusty."@),
    )
    ||| !empty && !known && answer == shipping_asked_for()
    ||| known && exists|id: Id|
        {
            &&& #[trigger] store.cart_items.contains((cart_id, id))
            &&& answer is Err
            &&& product_fault(store, id, answer->Err_0)
        }
    ||| {
        &&& known
        &&& (start.reading.labels)(LabelKind::PaymentMethod, payload.payment_method@) is None
        &&& answer == Err::<Answer, Fault>(Fault::Validation("Nieprawidłowa metoda płatności."@))
    }
}

/// A guest's email address is missing if and only if the form is valid, nobody is logged in, there is a
/// session, and the form has no address or only white space in its place.
pub proof fn law_missing_email(
    claims: Option<TokenClaims>,
    guest: Option<XGuestCartId>,
    payload: CheckoutFormPayload,
    invalid: Option<ValidationErrors>,
)
    ensures
        guest_email_missing(claims, guest, payload, invalid) == (invalid is None && claims is None
            && guest is Some && match payload.guest_checkout_email {
            Some(email) => forall|i: int|
                0 <= i < email@.len() ==> white_space(#[trigger] email@[i]),
            None => true,
        }),
{
}

/// Nobody, without a token and without a session, places an order.
pub proof fn law_nobody_places_no_order(
    order_id: Id,
    payload: CheckoutFormPayload,
    step: Step<CreateOrder>,
)
    requires
        order_begins(order_id, None, None, payload, None, step),
    ensures
        ends(
            step,
            Err(
                Fault::UnauthorizedAccess(
                    "Nie można zidentyfikować użytkownika ani sesji gościa."@,
                ),
            ),
        ),
{
}

proof fn lemma_total_bounded(items: Seq<CartItem>, products: Seq<Product>, most: int)
    requires
        0 <= most,
        forall|i: int| 0 <= i < products.len() ==> 0 <= (#[trigger] products[i]).price <= most,
    ensures
        order_lines(items, products) matches Ok(lines) ==> lines.len() == items.len() && 0
            <= lines_total(lines) <= items.len() * most,
    decreases items.len(),
{
    if items.len() > 0 {
        let rest = items.drop_last();
        lemma_total_bounded(rest, products, most);
        lemma_place_of(products, items.last().product_id);
        if let Ok(lines) = order_lines(items, products) {
            let before = order_lines(rest, products)->Ok_0;
            assert(lines.drop_last() =~= before);
            assert(items.len() * most == rest.len() * most + most) by (nonlinear_arith)
                requires
                    items.len() == rest.len() + 1,
            ;
        }
    }
}

/// The prices of a cart are added up wherever the sum is sure to fit: where no price is negative, and
/// as many times the highest as there are items is a number of 64 bits.
pub proof fn law_sums_are_taken(
    checkout: Checkout,
    cart: ShoppingCart,
    items: Vec<CartItem>,
    shipping: Shipping,
    products: Vec<Product>,
    most: int,
)
    requires
        0 <= most,
        items@.len() * most <= i64::MAX,
        forall|i: int|
            0 <= i < products@.len() ==> 0 <= (#[trigger] products@[i]).price <= most,
    ensures
        (CreateOrder::LoadingProducts { checkout, cart, items, shipping }).admits(
            Reply::Products(products),
        ),
{
    assert forall|k: int| 0 <= k <= items@.len() implies {
        let lines = #[trigger] order_lines(items@.take(k), products@);
        lines is Ok ==> i64::MIN <= lines_total(lines->Ok_0) <= i64::MAX
    } by {
        lemma_total_bounded(items@.take(k), products@, most);
        assert(k * most <= items@.len() * most) by (nonlinear_arith)
            requires
                0 <= k <= items@.len(),
                0 <= most,
        ;
    }
    assert(totals_fit(items@, products@));
}

/// The price of shipping is added wherever the sum fits.
pub proof fn law_shipping_is_added(
    checkout: Checkout,
    cart: ShoppingCart,
    shipping: Shipping,
    lines: Vec<OrderLine>,
    total: i64,
    reply: Reply,
)
    requires
        i64::MIN <= total + shipping.cost <= i64::MAX,
    ensures
        (CreateOrder::ReadingPayment { checkout, cart, shipping, lines, total }).admits(reply),
{
}

/// Whether a step reports an error as it came.
pub open spec fn reports<S>(step: Step<S>, error: AppError) -> bool {
    step == Step::<S>::Finish(Err(error))
}

/// A command that failed while products are handled is reported as it failed; where images could not be
/// stored or deleted, the transaction is rolled back first.
pub proof fn law_product_failures_are_reported(
    error: AppError,
    getting: Step<GetProduct>,
    archiving: Step<ArchivizeProduct>,
    stage: CreateProduct,
    creating: Step<CreateProduct>,
    change: UpdateProduct,
    updating: Step<UpdateProduct>,
    removal: DeleteProduct,
    deleting: Step<DeleteProduct>,
    list: ListProducts,
    listing: Step<ListProducts>,
)
    requires
        GetProduct::Finding.follows(Reply::Failed(error), getting),
        ArchivizeProduct::Archiving.follows(Reply::Failed(error), archiving),
        stage.follows(Reply::Failed(error), creating),
        change.follows(Reply::Failed(error), updating),
        removal.follows(Reply::Failed(error), deleting),
        list.follows(Reply::Failed(error), listing),
    ensures
        reports(getting, error),
        reports(archiving, error),
        reports(creating, error),
        reports(listing, error),
        match change {
            UpdateProduct::RollingBack(first) => ends(updating, Err(first@)),
            UpdateProduct::DeletingImages { .. } | UpdateProduct::Uploading { .. } => updating
                == Step::Perform(UpdateProduct::RollingBack(error), Command::Rollback),
            _ => reports(updating, error),
        },
        match removal {
            DeleteProduct::RollingBack(first) => reports(deleting, first),
            DeleteProduct::DeletingImages { .. } => deleting == Step::Perform(
                DeleteProduct::RollingBack(error),
                Command::Rollback,
            ),
            _ => reports(deleting, error),
        },
{
}

/// A command that failed while carts and orders are handled is reported as it failed; a user whose cart
/// cannot even be looked for is told that the server failed.
pub proof fn law_order_failures_are_reported(
    error: AppError,
    order: CreateOrder,
    placing: Step<CreateOrder>,
    details: GetOrder,
    showing: Step<GetOrder>,
    updating: Step<UpdateOrderStatus>,
    removal: DeleteOrder,
    deleting: Step<DeleteOrder>,
    list: ListOrders,
    listing: Step<ListOrders>,
    cart: ChangeCart,
    changing: Step<ChangeCart>,
    view: ShowCart,
    viewing: Step<ShowCart>,
)
    requires
        order.follows(Reply::Failed(error), placing),
        details.follows(Reply::Failed(error), showing),
        UpdateOrderStatus::Updating.follows(Reply::Failed(error), updating),
        removal.follows(Reply::Failed(error), deleting),
        list.follows(Reply::Failed(error), listing),
        cart.follows(Reply::Failed(error), changing),
        view.follows(Reply::Failed(error), viewing),
    ensures
        reports(placing, error),
        reports(showing, error),
        reports(updating, error),
        reports(deleting, error),
        reports(listing, error),
        reports(changing, error),
        match view {
            ShowCart::Acquiring { owner: CartOwner::User(_) } => ends(
                viewing,
                Err(Fault::InternalServerError("Błąd serwera"@)),
            ),
            _ => reports(viewing, error),
        },
{
}

/// A lookup or a write that failed while accounts are handled is reported as it failed.
pub proof fn law_account_failures_are_reported(
    error: AppError,
    registration: RegistrationPayload,
    registering: Step<Register>,
    payload: LoginPayload,
    entering: Step<Login>,
    storing: Step<UpsertShipping>,
)
    requires
        Register::LookingUp(registration).follows(Reply::Failed(error), registering),
        Login::LookingUp(payload).follows(Reply::Failed(error), entering),
        UpsertShipping::Storing.follows(Reply::Failed(error), storing),
    ensures
        reports(registering, error),
        reports(entering, error),
        reports(storing, error),
{
}

/// A missing email address is told from one that is there.
pub proof fn law_missing_email_is_told(
    claims: Option<TokenClaims>,
    guest: Option<XGuestCartId>,
    payload: CheckoutFormPayload,
    invalid: Option<ValidationErrors>,
    missing: bool,
)
    requires
        call_ensures(lacks_guest_email, (&claims, &guest, &payload, &invalid), missing),
    ensures
        missing == guest_email_missing(claims, guest, payload, invalid),
{
}

/// Every other reply is taken.
pub proof fn law_every_reply_is_taken(
    reply: Reply,
    placing: CreateOrder,
    creating: CreateProduct,
    updating: UpdateProduct,
    getting: GetProduct,
    archiving: ArchivizeProduct,
    deleting: DeleteProduct,
    products: ListProducts,
    orders: ListOrders,
)
    ensures
        !(placing is LoadingProducts) && !(placing is ReadingPayment) ==> placing.admits(reply),
        creating.admits(reply),
        updating.admits(reply),
        getting.admits(reply),
        archiving.admits(reply),
        deleting.admits(reply),
        products.admits(reply),
        orders.admits(reply),
{
}

/// Every reply is taken where carts, accounts and stored orders are concerned.
pub proof fn law_every_other_reply_is_taken(
    reply: Reply,
    changing: ChangeCart,
    showing: ShowCart,
    registering: Register,
    entering: Login,
    storing: UpsertShipping,
    getting: GetOrder,
    updating: UpdateOrderStatus,
    deleting: DeleteOrder,
)
    ensures
        changing.admits(reply),
        showing.admits(reply),
        registering.admits(reply),
        entering.admits(reply),
        storing.admits(reply),
        getting.admits(reply),
        updating.admits(reply),
        deleting.admits(reply),
{
}

} // verus!
