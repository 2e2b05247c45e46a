//! What is shown of an order, to whom, and what changing its status leaves.
use crate::handlers::lookup::{lemma_place_of, place_of};
use crate::handlers::orders::{
    items_shown, ordered_products, status_changed, GetOrder, UpdateOrderStatus,
};
use crate::headers::{no_headers, with_header};
use crate::ids::Id;
use crate::json::json_text;
use crate::laws::answers::law_order_list_is_loaded_again;
use crate::models::{
    OrderItem, OrderItemDetailsPublic, OrderItemShown, OrderStatus, Product, Role, TokenClaims,
};
use crate::protocol::{Body, Command, Fault, OrderRow, Outcome, Query, Step};
use crate::store::{
    at_rest, lemma_goes_on, ordered_item, runs, shows_order, tells_products, OrderedItem, Store,
    World,
};
use vstd::multiset::Multiset;
use vstd::prelude::*;

verus! {

/// What a shown item tells of an order.
pub open spec fn item_told(order_id: Id, item: OrderItemShown) -> OrderedItem {
    OrderedItem { order_id, product_id: item.product.id, price: item.price_at_purchase }
}

/// The items of an order whose products are still there.
pub open spec fn remaining_items(store: Store, order_id: Id) -> Multiset<OrderedItem> {
    store.order_items.filter(
        |item: OrderedItem| item.order_id == order_id && store.products.contains_key(
            item.product_id,
        ),
    )
}

/// Whether the items of an order are shown: all whose products are still there, with the price that
/// was paid, and each product as it is stored.
pub open spec fn shows_items(store: Store, order_id: Id, items: Seq<OrderItemShown>) -> bool {
    &&& items.map_values(|item: OrderItemShown| item_told(order_id, item)).to_multiset()
        == remaining_items(store, order_id)
    &&& forall|i: int|
        0 <= i < items.len() ==> {
            let product = (#[trigger] items[i]).product;
            store.products.contains_key(product.id) && store.products[product.id] == product
        }
}

/// The items that are shown are those whose products are there.
proof fn lemma_items_shown(
    store: Store,
    order_id: Id,
    ids: Seq<Id>,
    items: Seq<OrderItem>,
    products: Seq<Product>,
)
    requires
        tells_products(store, ids, products),
        forall|i: int|
            0 <= i < items.len() ==> {
                let item = #[trigger] items[i];
                item.order_id == order_id && ids.contains(item.product_id)
            },
    ensures
        items_shown(items, products).map_values(
            |item: OrderItemShown| item_told(order_id, item),
        ).to_multiset() == items.map_values(
            |item: OrderItem| ordered_item(item),
        ).to_multiset().filter(|item: OrderedItem| store.products.contains_key(item.product_id)),
        forall|i: int|
            0 <= i < items_shown(items, products).len() ==> {
                let product = (#[trigger] items_shown(items, products)[i]).product;
                store.products.contains_key(product.id) && store.products[product.id] == product
            },
    decreases items.len(),
{
    broadcast use vstd::seq_lib::group_to_multiset_ensures;

    let there = |item: OrderedItem| store.products.contains_key(item.product_id);
    let told = |item: OrderItemShown| item_told(order_id, item);
    let facts = |item: OrderItem| ordered_item(item);
    let shown = items_shown(items, products);
    if items.len() == 0 {
        assert(shown.map_values(told) =~= Seq::empty());
        assert(items.map_values(facts) =~= Seq::empty());
        assert(shown.map_values(told).to_multiset() =~= items.map_values(
            facts,
        ).to_multiset().filter(there));
    } else {
        let item = items.last();
        let rest = items.drop_last();
        assert forall|i: int| 0 <= i < rest.len() implies {
            let one = #[trigger] rest[i];
            one.order_id == order_id && ids.contains(one.product_id)
        } by {
            assert(rest[i] == items[i]);
        }
        lemma_items_shown(store, order_id, ids, rest, products);
        assert(item == items[items.len() - 1]);
        assert(ids.contains(item.product_id));
        lemma_place_of(products, item.product_id);
        let before = items_shown(rest, products);
        assert(items.map_values(facts) =~= rest.map_values(facts).push(ordered_item(item)));
        let place = place_of(products, item.product_id);
        match place {
            Some(found) => {
                let product = products[found];
                assert(store.products[product.id] == product@);
                let one = OrderItemShown {
                    order_item_id: item.id,
                    product: product@,
                    price_at_purchase: item.price_at_purchase,
                };
                assert(shown == before.push(one));
                assert(shown.map_values(told) =~= before.map_values(told).push(
                    item_told(order_id, one),
                ));
                assert(item_told(order_id, one) == ordered_item(item));
                assert forall|i: int| 0 <= i < shown.len() implies {
                    let product = (#[trigger] shown[i]).product;
                    store.products.contains_key(product.id) && store.products[product.id]
                        == product
                } by {
                    if i < before.len() {
                        assert(shown[i] == before[i]);
                    }
                }
            },
            None => {
                let k = choose|k: int| 0 <= k < ids.len() && ids[k] == item.product_id;
                assert(!store.products.contains_key(ids[k]));
            },
        }
        assert(shown.map_values(told).to_multiset() =~= items.map_values(
            facts,
        ).to_multiset().filter(there));
    }
}

/// Whether what is shown are the items at `places`, in their old order, each with its own id, the price
/// that was paid and the last product that was found for it; and no item whose product was found is
/// left out.
pub open spec fn shown_at(
    items: Seq<OrderItem>,
    products: Seq<Product>,
    shown: Seq<OrderItemShown>,
    places: Seq<int>,
) -> bool {
    &&& places.len() == shown.len()
    &&& forall|i: int, j: int| 0 <= i < j < places.len() ==> places[i] < places[j]
    &&& forall|i: int|
        0 <= i < shown.len() ==> {
            let place = #[trigger] places[i];
            &&& 0 <= place < items.len()
            &&& shown[i].order_item_id == items[place].id
            &&& shown[i].price_at_purchase == items[place].price_at_purchase
            &&& shown[i].product.id == items[place].product_id
            &&& exists|p: int|
                0 <= p < products.len() && (#[trigger] products[p])@ == shown[i].product
        }
    &&& forall|k: int, p: int|
        0 <= k < items.len() && 0 <= p < products.len() && (#[trigger] items[k]).product_id == (
        #[trigger] products[p]).id ==> places.contains(k)
}

/// The items of an order are shown in their order, each with its own id and price and its product.
pub proof fn law_items_are_shown(items: Seq<OrderItem>, products: Seq<Product>) -> (places: Seq<int>)
    ensures
        shown_at(items, products, items_shown(items, products), places),
    decreases items.len(),
{
    if items.len() == 0 {
        Seq::empty()
    } else {
        let rest = items.drop_last();
        let before = law_items_are_shown(rest, products);
        let shown_before = items_shown(rest, products);
        let shown = items_shown(items, products);
        let item = items.last();
        lemma_place_of(products, item.product_id);
        let found = place_of(products, item.product_id);
        let places = if found is Some {
            before.push(items.len() - 1)
        } else {
            before
        };
        assert forall|i: int| 0 <= i < shown.len() implies {
            let place = #[trigger] places[i];
            &&& 0 <= place < items.len()
            &&& shown[i].order_item_id == items[place].id
            &&& shown[i].price_at_purchase == items[place].price_at_purchase
            &&& shown[i].product.id == items[place].product_id
            &&& exists|p: int|
                0 <= p < products.len() && (#[trigger] products[p])@ == shown[i].product
        } by {
            if i < before.len() {
                assert(0 <= before[i] < rest.len());
                assert(rest[before[i]] == items[before[i]]);
                assert(shown[i] == shown_before[i]);
            } else {
                assert(products[found->0]@ == shown[i].product);
            }
        }
        assert forall|k: int, p: int|
            0 <= k < items.len() && 0 <= p < products.len() && (#[trigger] items[k]).product_id == (
            #[trigger] products[p]).id implies places.contains(k) by {
            if k < rest.len() {
                assert(rest[k] == items[k]);
                assert(before.contains(k));
                let i = choose|i: int| 0 <= i < before.len() && before[i] == k;
                assert(places[i] == k);
            } else {
                assert(places[places.len() - 1] == k);
            }
        }
        places
    }
}

/// Nothing is changed by showing an order. An order that is not there is not found; one that is there
/// is shown to an administrator and to the user who placed it, unless a command fails, and to nobody
/// else. It is shown as it is stored, with all of its items whose products are still there.
pub proof fn law_order_shown(
    claims: TokenClaims,
    order_id: Id,
    start: World,
    outcome: Outcome,
    end: World,
    fuel: nat,
)
    requires
        runs(
            Step::Perform(
                GetOrder::Finding { claims, order_id },
                Command::Query(Query::SelectOrder { id: order_id }),
            ),
            start,
            outcome,
            end,
            fuel,
        ),
        at_rest(start),
    ensures
        end.committed == start.committed,
        ({
            let there = start.committed.orders.contains_key(order_id);
            let row = start.committed.orders[order_id];
            let allowed = claims.role == Role::Admin || row.user_id == Some(claims.sub);
            &&& outcome is Ok ==> there && allowed
            &&& !end.failed ==> outcome is Ok == (there && allowed)
            &&& !end.failed && !there ==> (outcome matches Err(error) && error@ is NotFound)
            &&& !end.failed && there && !allowed ==> (outcome matches Err(error) && error@
                == Fault::UnauthorizedAccess("Nie masz uprawnień do tego zamówienia"@))
            &&& outcome matches Ok(response) ==> {
                &&& response.status == 200
                &&& response.body matches Body::OrderDetails(details)
                &&& shows_order(row, details.order)
                &&& shows_items(
                    start.committed,
                    order_id,
                    details.items@.map_values(|item: OrderItemDetailsPublic| item@),
                )
            }
        }),
{
    broadcast use vstd::seq_lib::group_to_multiset_ensures;

    let s0 = Step::Perform(
        GetOrder::Finding { claims, order_id },
        Command::Query(Query::SelectOrder { id: order_id }),
    );
    let store = start.committed;
    let (r1, w1, s1) = lemma_goes_on(s0, start, outcome, end, fuel);
    if s1 is Perform {
        let (r2, w2, s2) = lemma_goes_on(s1, w1, outcome, end, (fuel - 1) as nat);
        if !(r2 is Failed) {
            let items = r2->OrderItems_0@;
            let facts = |item: OrderItem| ordered_item(item);
            let of_order = store.order_items.filter(
                |item: OrderedItem| item.order_id == order_id,
            );
            assert(items.map_values(facts).to_multiset() == of_order);
            assert(of_order.filter(
                |item: OrderedItem| store.products.contains_key(item.product_id),
            ) =~= remaining_items(store, order_id));
            assert forall|i: int| 0 <= i < items.len() implies {
                let item = #[trigger] items[i];
                item.order_id == order_id && ordered_products(items).contains(item.product_id)
            } by {
                assert(items.map_values(facts)[i] == ordered_item(items[i]));
                assert(items.map_values(facts).contains(ordered_item(items[i])));
                assert(of_order.contains(ordered_item(items[i])));
                assert(ordered_products(items)[i] == items[i].product_id);
            }
            if s2 is Perform {
                let (r3, w3, s3) = lemma_goes_on(s2, w2, outcome, end, (fuel - 2) as nat);
                assert(s3 !is Perform);
                if !(r3 is Failed) {
                    lemma_items_shown(
                        store,
                        order_id,
                        ordered_products(items),
                        items,
                        r3->Products_0@,
                    );
                }
            } else {
                let none: Seq<OrderItemShown> = Seq::empty();
                assert(items.map_values(facts) =~= Seq::empty());
                assert(none.map_values(|item: OrderItemShown| item_told(order_id, item))
                    =~= Seq::empty());
                assert(Seq::<OrderedItem>::empty().to_multiset() =~= remaining_items(
                    store,
                    order_id,
                ));
            }
        }
    }
}

/// Changing an order's status changes that and nothing else, or fails and changes nothing. Unless a
/// command fails, it is done if and only if there is such an order; then the list of orders is loaded
/// again, and the answer is the order as it is stored.
pub proof fn law_order_status_changed(
    order_id: Id,
    order_status: OrderStatus,
    start: World,
    outcome: Outcome,
    end: World,
    fuel: nat,
)
    requires
        runs(
            Step::Perform(
                UpdateOrderStatus::Updating,
                Command::Query(Query::UpdateOrderStatus { id: order_id, order_status }),
            ),
            start,
            outcome,
            end,
            fuel,
        ),
        at_rest(start),
    ensures
        ({
            let there = start.committed.orders.contains_key(order_id);
            &&& outcome is Ok == (there && !end.failed)
            &&& !there && !end.failed ==> (outcome matches Err(error) && error@ is NotFound)
        }),
        outcome matches Ok(response) ==> {
            &&& end.committed == (Store {
                orders: start.committed.orders.insert(
                    order_id,
                    OrderRow { status: order_status, ..start.committed.orders[order_id] },
                ),
                ..start.committed
            })
            &&& response@.status == 200
            &&& response@.headers == with_header(
                no_headers(),
                "HX-Trigger"@,
                json_text(status_changed()),
            )
            &&& response.body matches Body::Order(order)
            &&& shows_order(end.committed.orders[order_id], order)
        },
        outcome is Err ==> end.committed == start.committed,
{
    let s0 = Step::Perform(
        UpdateOrderStatus::Updating,
        Command::Query(Query::UpdateOrderStatus { id: order_id, order_status }),
    );
    law_order_list_is_loaded_again();
    let (r1, w1, s1) = lemma_goes_on(s0, start, outcome, end, fuel);
    assert(s1 !is Perform);
}

} // verus!
