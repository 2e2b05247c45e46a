//! What an order holds and costs, told by what the buyer sent and what the tables held.
use crate::handlers::create_order::{
    line_products, lines_total, order_begins, CreateOrder, OrderLine,
};
use crate::ids::{Id, XGuestCartId};
use crate::laws::carts::one_cart_each;
use crate::laws::orders::{
    holds_goods, law_order_placed, orderable, order_was_placed, with_lines,
};
use crate::models::{CheckoutFormPayload, OrderStatus, ProductShown, ProductStatus, TokenClaims};
use crate::protocol::{LabelKind, OrderRow, Outcome, Step};
use crate::store::{at_rest, owned, runs, OrderedItem, Store, World};
use vstd::multiset::Multiset;
use vstd::prelude::*;

verus! {

/// What products cost together.
pub open spec fn price_of_all(products: Map<Id, ProductShown>, ids: Seq<Id>) -> int {
    ids.fold_left(0int, |sum: int, id: Id| sum + products[id].price)
}

/// The items of an order: each product once, at the price it has.
pub open spec fn items_for(
    products: Map<Id, ProductShown>,
    order_id: Id,
    ids: Seq<Id>,
) -> Multiset<OrderedItem> {
    ids.map_values(
        |id: Id| OrderedItem { order_id, product_id: id, price: products[id].price },
    ).to_multiset()
}

/// Whether a column holds a form's optional text: the text, where there is one that is not empty.
pub open spec fn holds_text(column: Option<String>, given: Option<String>) -> bool {
    if given is Some && given->0@.len() > 0 {
        column == given
    } else {
        column is None
    }
}

/// Whether a row says where and how an order is sent, and how it is paid, as the buyer's form does.
pub open spec fn row_of_form(
    row: OrderRow,
    payload: CheckoutFormPayload,
    payment_method: String,
) -> bool {
    &&& row.shipping_first_name == payload.shipping_first_name
    &&& row.shipping_last_name == payload.shipping_last_name
    &&& row.shipping_address_line1 == payload.shipping_address_line1
    &&& holds_text(row.shipping_address_line2, payload.shipping_address_line2)
    &&& row.shipping_city == payload.shipping_city
    &&& row.shipping_postal_code == payload.shipping_postal_code
    &&& row.shipping_country == payload.shipping_country
    &&& row.shipping_phone == payload.shipping_phone
    &&& row.payment_method == payment_method
    &&& row.status == OrderStatus::Pending
}

/// Whether a row names the buyer: the user who is logged in, or else the guest with the email address
/// of the form.
pub open spec fn row_of_buyer(
    row: OrderRow,
    claims: Option<TokenClaims>,
    guest: Option<XGuestCartId>,
    payload: CheckoutFormPayload,
) -> bool {
    match claims {
        Some(user) => row.user_id == Some(user.sub) && row.guest_session_id is None
            && row.guest_email is None,
        None => {
            &&& guest is Some
            &&& row.user_id is None
            &&& row.guest_session_id == Some((guest->0).0)
            &&& holds_text(row.guest_email, payload.guest_checkout_email)
        },
    }
}

/// Whether a row charges for these products and their shipping: InPost for 11.99, the post for 17.99.
pub open spec fn row_charges(
    row: OrderRow,
    products: Map<Id, ProductShown>,
    ids: Seq<Id>,
    key: Seq<char>,
) -> bool {
    ||| {
        &&& key == "inpost"@
        &&& row.total_price == price_of_all(products, ids) + 1199
        &&& row.shipping_method_name@ == "Paczkomat InPost 24/7"@
    }
    ||| {
        &&& key == "poczta"@
        &&& row.total_price == price_of_all(products, ids) + 1799
        &&& row.shipping_method_name@ == "Poczta Polska S.A."@
    }
}

/// Whether a cart is the buyer's: the user's who is logged in, or else the guest's.
pub open spec fn buyers_cart(
    store: Store,
    cart_id: Id,
    claims: Option<TokenClaims>,
    guest: Option<XGuestCartId>,
) -> bool {
    &&& store.carts.contains_key(cart_id)
    &&& match claims {
        Some(user) => store.carts[cart_id].user_id == Some(user.sub),
        None => guest is Some && store.carts[cart_id].guest_session_id == Some((guest->0).0),
    }
}

/// Whether the products, and they alone, went from being for sale to being sold.
pub open spec fn were_sold(before: Store, after: Store, ids: Seq<Id>) -> bool {
    &&& after.products.dom() == before.products.dom()
    &&& forall|id: Id|
        before.products.contains_key(id) ==> #[trigger] after.products[id] == if ids.contains(id) {
            ProductShown { status: ProductStatus::Sold, ..before.products[id] }
        } else {
            before.products[id]
        }
    &&& forall|i: int|
        0 <= i < ids.len() ==> {
            &&& before.products.contains_key(#[trigger] ids[i])
            &&& before.products[ids[i]].status == ProductStatus::Available
        }
}

/// Whether the buyer's cart became an order: the order names the buyer, repeats the form, and charges
/// for the cart's products and their shipping; its items are those products at their prices; they are
/// sold; the cart is empty, and gone where a guest's; everything else is as it was.
pub open spec fn cart_became_order(
    before: Store,
    after: Store,
    order_id: Id,
    claims: Option<TokenClaims>,
    guest: Option<XGuestCartId>,
    payload: CheckoutFormPayload,
    payment_method: String,
    cart_id: Id,
    ids: Seq<Id>,
) -> bool {
    let row = after.orders[order_id];
    &&& buyers_cart(before, cart_id, claims, guest)
    &&& ids.len() > 0
    &&& ids.no_duplicates()
    &&& forall|id: Id| #[trigger] ids.contains(id) <==> before.cart_items.contains((cart_id, id))
    &&& !before.orders.contains_key(order_id)
    &&& after.orders == before.orders.insert(order_id, row)
    &&& row.id == order_id
    &&& row_of_buyer(row, claims, guest, payload)
    &&& row_of_form(row, payload, payment_method)
    &&& row_charges(row, before.products, ids, payload.shipping_method_key@)
    &&& after.order_items == before.order_items.add(items_for(before.products, order_id, ids))
    &&& were_sold(before, after, ids)
    &&& forall|item: (Id, Id)| #[trigger]
        after.cart_items.contains(item) <==> before.cart_items.contains(item) && item.0 != cart_id
    &&& after.carts == if claims is None {
        before.carts.remove(cart_id)
    } else {
        before.carts
    }
    &&& after.users == before.users
    &&& after.shipping == before.shipping
}

proof fn lemma_lines_cost(products: Map<Id, ProductShown>, lines: Seq<OrderLine>)
    requires
        forall|i: int|
            0 <= i < lines.len() ==> products[(#[trigger] lines[i]).product_id].price
                == lines[i].price,
    ensures
        lines_total(lines) == price_of_all(products, line_products(lines)),
    decreases lines.len(),
{
    let ids = line_products(lines);
    if lines.len() > 0 {
        let rest = lines.drop_last();
        assert forall|i: int| 0 <= i < rest.len() implies products[(
        #[trigger] rest[i]).product_id].price == rest[i].price by {
            assert(rest[i] == lines[i]);
        }
        lemma_lines_cost(products, rest);
        assert(ids.drop_last() =~= line_products(rest));
        assert(lines[lines.len() - 1].price == products[ids.last()].price);
        reveal_with_fuel(Seq::fold_left, 2);
    } else {
        assert(ids =~= Seq::empty());
        reveal_with_fuel(Seq::fold_left, 2);
    }
}

proof fn lemma_lines_are_items(
    items: Multiset<OrderedItem>,
    products: Map<Id, ProductShown>,
    order_id: Id,
    lines: Seq<OrderLine>,
    next: int,
)
    requires
        0 <= next <= lines.len(),
        forall|i: int|
            0 <= i < lines.len() ==> products[(#[trigger] lines[i]).product_id].price
                == lines[i].price,
    ensures
        with_lines(items, order_id, lines, next) == items.add(
            items_for(products, order_id, line_products(lines).skip(next)),
        ),
    decreases lines.len() - next,
{
    broadcast use vstd::seq_lib::group_to_multiset_ensures;
    broadcast use vstd::multiset::group_multiset_axioms;

    let ids = line_products(lines).skip(next);
    let item_of = |id: Id| OrderedItem { order_id, product_id: id, price: products[id].price };
    if next < lines.len() {
        let item = OrderedItem {
            order_id,
            product_id: lines[next].product_id,
            price: lines[next].price,
        };
        lemma_lines_are_items(items.insert(item), products, order_id, lines, next + 1);
        let rest = line_products(lines).skip(next + 1);
        assert(ids =~= seq![lines[next].product_id] + rest);
        assert(ids.map_values(item_of) =~= seq![item] + rest.map_values(item_of));
        vstd::seq_lib::lemma_multiset_commutative(seq![item], rest.map_values(item_of));
        assert(seq![item] =~= Seq::<OrderedItem>::empty().push(item));
        assert(Seq::<OrderedItem>::empty().to_multiset() =~= Multiset::empty());
        assert(seq![item].to_multiset() =~= Multiset::singleton(item));
        assert(items.insert(item).add(rest.map_values(item_of).to_multiset()) =~= items.add(
            ids.map_values(item_of).to_multiset(),
        ));
    } else {
        assert(ids.map_values(item_of) =~= Seq::empty());
        assert(items.add(ids.map_values(item_of).to_multiset()) =~= items);
    }
}

/// An order that is placed is what the buyer sent and what the cart held: it costs the sum of its
/// products' prices and the price of the way to ship that the form names.
pub proof fn law_cart_becomes_order(
    order_id: Id,
    claims: Option<TokenClaims>,
    guest: Option<XGuestCartId>,
    payload: CheckoutFormPayload,
    first: Step<CreateOrder>,
    start: World,
    outcome: Outcome,
    end: World,
    fuel: nat,
)
    requires
        order_begins(order_id, claims, guest, payload, None, first),
        runs(first, start, outcome, end, fuel),
        at_rest(start),
    ensures
        (outcome matches Ok(response) && response.status == 200) ==> {
            &&& (start.reading.labels)(LabelKind::PaymentMethod, payload.payment_method@) is Some
            &&& exists|cart_id: Id, ids: Seq<Id>| #[trigger]
                cart_became_order(
                    start.committed,
                    end.committed,
                    order_id,
                    claims,
                    guest,
                    payload,
                    (start.reading.labels)(LabelKind::PaymentMethod, payload.payment_method@)->0,
                    cart_id,
                    ids,
                )
        },
        !(outcome matches Ok(response) && response.status == 200) ==> end.committed
            == start.committed || end.closing is Failed,
{
    if claims is None && guest is None {
    } else {
        let checkout = first->Perform_0->Opening_0;
        law_order_placed(checkout, start, outcome, end, fuel);
        if end.closing is Done {
            let (cart_id, lines, payment_method) = choose|
                cart_id: Id,
                lines: Seq<OrderLine>,
                payment_method: String,
            |
                {
                    &&& #[trigger] order_was_placed(
                        start.committed,
                        end.committed,
                        checkout,
                        cart_id,
                        lines,
                        payment_method,
                    )
                    &&& (start.reading.labels)(
                        LabelKind::PaymentMethod,
                        checkout.payload.payment_method@,
                    ) == Some(payment_method)
                };
            let before = start.committed;
            let after = end.committed;
            let ids = line_products(lines);
            assert forall|i: int| 0 <= i < lines.len() implies before.products[(
            #[trigger] lines[i]).product_id].price == lines[i].price by {}
            lemma_lines_cost(before.products, lines);
            lemma_lines_are_items(before.order_items, before.products, order_id, lines, 0);
            assert(ids.skip(0) =~= ids);
            assert forall|id: Id| #[trigger] ids.contains(id) <==> before.cart_items.contains(
                (cart_id, id),
            ) by {}
            assert(were_sold(before, after, ids)) by {
                assert(after.products.dom() =~= before.products.dom());
                assert forall|i: int| 0 <= i < ids.len() implies {
                    &&& before.products.contains_key(#[trigger] ids[i])
                    &&& before.products[ids[i]].status == ProductStatus::Available
                } by {
                    assert(lines[i].product_id == ids[i]);
                }
                assert forall|id: Id| before.products.contains_key(id) implies #[trigger]
                after.products[id] == if ids.contains(id) {
                    ProductShown { status: ProductStatus::Sold, ..before.products[id] }
                } else {
                    before.products[id]
                } by {
                    assert(ids.to_set().contains(id) == ids.contains(id));
                }
            }
            let paid = (start.reading.labels)(
                LabelKind::PaymentMethod,
                payload.payment_method@,
            );
            assert(paid == Some(payment_method));
            assert(cart_became_order(
                before,
                after,
                order_id,
                claims,
                guest,
                payload,
                paid->0,
                cart_id,
                ids,
            ));
        }
    }
}

/// An order is placed where nothing stands against it: no command fails, no owner has two carts, the
/// buyer's cart holds products and only such as are for sale, and the form names one of the two ways
/// to ship and a way to pay.
pub proof fn law_order_is_accepted(
    order_id: Id,
    claims: Option<TokenClaims>,
    guest: Option<XGuestCartId>,
    payload: CheckoutFormPayload,
    cart_id: Id,
    first: Step<CreateOrder>,
    start: World,
    outcome: Outcome,
    end: World,
    fuel: nat,
)
    requires
        order_begins(order_id, claims, guest, payload, None, first),
        runs(first, start, outcome, end, fuel),
        at_rest(start),
        !end.failed,
        one_cart_each(start.committed),
        buyers_cart(start.committed, cart_id, claims, guest),
        exists|id: Id| #[trigger] start.committed.cart_items.contains((cart_id, id)),
        forall|id: Id| #[trigger]
            start.committed.cart_items.contains((cart_id, id)) ==> {
                &&& start.committed.products.contains_key(id)
                &&& start.committed.products[id].status == ProductStatus::Available
            },
        payload.shipping_method_key@ == "inpost"@ || payload.shipping_method_key@ == "poczta"@,
        (start.reading.labels)(LabelKind::PaymentMethod, payload.payment_method@) is Some,
    ensures
        outcome matches Ok(response) && response.status == 200,
{
    let checkout = first->Perform_0->Opening_0;
    law_order_placed(checkout, start, outcome, end, fuel);
    assert(owned(checkout.owner, start.committed.carts[cart_id]));
    assert(holds_goods(start.committed, cart_id));
    assert(orderable(start.committed, start.reading, checkout));
}

} // verus!
