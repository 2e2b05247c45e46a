//! What placing and deleting an order leaves in the tables.
use crate::handlers::create_order::{
    item_products, line_or_cart, line_products, lines_total, order_lines, order_placed_answer,
    order_row, sells, shipping_for, Checkout, CreateOrder, OrderLine, Placing,
};
use crate::handlers::lookup::{lemma_place_of, place_of, product_of};
use crate::handlers::orders::{deletes_items, DeleteOrder};
use crate::headers::{no_headers, with_header};
use crate::ids::Id;
use crate::json::json_text;
use crate::laws::answers::{law_message_reaches_page, law_order_placed_is_told};
use crate::laws::carts::{for_sale, one_cart_each};
use crate::messages::toast_json;
use crate::models::{CartItem, Product, ProductStatus};
use crate::protocol::{seen, Answer, Command, Content, LabelKind, Outcome, Step};
use crate::store::{
    at_rest, cart_facts, in_items, in_order, lemma_goes_on, owned, runs, settled, tells_items,
    tells_products, with_statuses, without_cart, without_order, OrderedItem, Reading, Store, World,
};
use vstd::multiset::Multiset;
use vstd::prelude::*;

verus! {

/// The ordered items with the lines of an order from line `next` on.
pub open spec fn with_lines(
    items: Multiset<OrderedItem>,
    order_id: Id,
    lines: Seq<OrderLine>,
    next: int,
) -> Multiset<OrderedItem>
    decreases lines.len() - next,
{
    if next < 0 || next >= lines.len() {
        items
    } else {
        with_lines(
            items.insert(
                OrderedItem {
                    order_id,
                    product_id: lines[next].product_id,
                    price: lines[next].price,
                },
            ),
            order_id,
            lines,
            next + 1,
        )
    }
}

/// Whether an order was placed for what a cart held. Each of its products was for sale, at the
/// price that is charged, and is now sold. The order costs what they and their shipping cost. The
/// cart is empty, and gone where it was a guest's. Nothing else changed.
pub open spec fn order_was_placed(
    before: Store,
    after: Store,
    checkout: Checkout,
    cart_id: Id,
    lines: Seq<OrderLine>,
    payment_method: String,
) -> bool {
    let shipping = shipping_for(checkout.payload.shipping_method_key@);
    &&& before.carts.contains_key(cart_id)
    &&& owned(checkout.owner, before.carts[cart_id])
    &&& !before.orders.contains_key(checkout.order_id)
    &&& shipping is Some
    &&& lines.len() > 0
    &&& line_products(lines).no_duplicates()
    &&& forall|product_id: Id| #[trigger]
        before.cart_items.contains((cart_id, product_id)) <==> line_products(lines).contains(
            product_id,
        )
    &&& forall|i: int|
        0 <= i < lines.len() ==> {
            let line = #[trigger] lines[i];
            &&& before.products.contains_key(line.product_id)
            &&& before.products[line.product_id].price == line.price
            &&& before.products[line.product_id].status == ProductStatus::Available
        }
    &&& i64::MIN <= lines_total(lines) <= i64::MAX
    &&& i64::MIN <= lines_total(lines) + shipping->0.cost <= i64::MAX
    &&& after == Store {
        products: with_statuses(
            before.products,
            line_products(lines).to_set(),
            ProductStatus::Sold,
        ),
        carts: if checkout.owner is Guest && before.carts[cart_id].guest_session_id is Some {
            before.carts.remove(cart_id)
        } else {
            before.carts
        },
        cart_items: without_cart(before.cart_items, cart_id),
        orders: before.orders.insert(
            checkout.order_id,
            order_row(checkout, shipping->0, lines_total(lines) as i64, payment_method),
        ),
        order_items: with_lines(before.order_items, checkout.order_id, lines, 0),
        ..before
    }
}

/// Whether the order was placed for what this buyer's cart held, to be paid in the way that the form
/// names.
pub open spec fn some_order_was_placed(
    before: Store,
    after: Store,
    checkout: Checkout,
    reading: Reading,
) -> bool {
    exists|cart_id: Id, lines: Seq<OrderLine>, payment_method: String|
        {
            &&& #[trigger] order_was_placed(
                before,
                after,
                checkout,
                cart_id,
                lines,
                payment_method,
            )
            &&& (reading.labels)(LabelKind::PaymentMethod, checkout.payload.payment_method@)
                == Some(payment_method)
        }
}

/// What the rest of placing an order makes of the tables, from line `next` on.
spec fn rest_of_placing(store: Store, placing: Placing, next: int) -> Store {
    Store {
        products: if placing.lines@.len() == 0 {
            store.products
        } else {
            with_statuses(
                store.products,
                line_products(placing.lines@).to_set(),
                ProductStatus::Sold,
            )
        },
        carts: if placing.removes_cart {
            store.carts.remove(placing.cart_id)
        } else {
            store.carts
        },
        cart_items: without_cart(store.cart_items, placing.cart_id),
        order_items: with_lines(store.order_items, placing.order_id, placing.lines@, next),
        ..store
    }
}

spec fn succeeds(outcome: Outcome) -> bool {
    outcome matches Ok(response) && response.status == 200
}

proof fn lemma_order_commit(
    order_id: Id,
    world: World,
    outcome: Outcome,
    end: World,
    fuel: nat,
)
    requires
        runs(
            Step::Perform(CreateOrder::Committing { order_id }, Command::Commit),
            world,
            outcome,
            end,
            fuel,
        ),
        world.open is Some,
        world.closing is Untried,
        !world.failed,
    ensures
        settled(world.committed, end, end.committed == world.open->0),
        succeeds(outcome) == (end.closing is Done),
        succeeds(outcome) ==> seen(outcome) == order_placed_answer(order_id),
        !end.failed ==> end.closing is Done,
{
    let step = Step::Perform(CreateOrder::Committing { order_id }, Command::Commit);
    let (r1, w1, s1) = lemma_goes_on(step, world, outcome, end, fuel);
    assert(s1 !is Perform);
    law_order_placed_is_told(order_id);
}

proof fn lemma_selling(
    placing: Placing,
    step: Step<CreateOrder>,
    world: World,
    outcome: Outcome,
    end: World,
    fuel: nat,
)
    requires
        runs(step, world, outcome, end, fuel),
        sells(placing, step),
        world.open is Some,
        world.closing is Untried,
        !world.failed,
    ensures
        ({
            let sold = if placing.lines@.len() == 0 {
                world.open->0
            } else {
                Store {
                    products: with_statuses(
                        world.open->0.products,
                        line_products(placing.lines@).to_set(),
                        ProductStatus::Sold,
                    ),
                    ..world.open->0
                }
            };
            settled(world.committed, end, end.committed == sold)
        }),
        succeeds(outcome) == (end.closing is Done),
        succeeds(outcome) ==> seen(outcome) == order_placed_answer(placing.order_id),
        !end.failed ==> end.closing is Done,
{
    if placing.lines@.len() == 0 {
        lemma_order_commit(placing.order_id, world, outcome, end, fuel);
    } else {
        let (r1, w1, s1) = lemma_goes_on(step, world, outcome, end, fuel);
        if s1 is Perform {
            lemma_order_commit(placing.order_id, w1, outcome, end, (fuel - 1) as nat);
        }
    }
}

proof fn lemma_lines_written(
    placing: Placing,
    next: int,
    world: World,
    outcome: Outcome,
    end: World,
    fuel: nat,
)
    requires
        runs(line_or_cart(placing, next), world, outcome, end, fuel),
        0 <= next <= placing.lines@.len(),
        world.open is Some,
        world.closing is Untried,
        !world.failed,
    ensures
        settled(
            world.committed,
            end,
            end.committed == rest_of_placing(world.open->0, placing, next),
        ),
        succeeds(outcome) == (end.closing is Done),
        succeeds(outcome) ==> seen(outcome) == order_placed_answer(placing.order_id),
        !end.failed ==> end.closing is Done,
    decreases placing.lines@.len() - next,
{
    let step = line_or_cart(placing, next);
    let (r1, w1, s1) = lemma_goes_on(step, world, outcome, end, fuel);
    if next < placing.lines@.len() {
        if s1 is Perform {
            assert(placing.lines@.len() == placing.lines.len());
            assert(s1 == line_or_cart(placing, next + 1));
            lemma_lines_written(placing, next + 1, w1, outcome, end, (fuel - 1) as nat);
        }
    } else if s1 is Perform {
        if placing.removes_cart {
            let (r2, w2, s2) = lemma_goes_on(s1, w1, outcome, end, (fuel - 1) as nat);
            if s2 is Perform {
                lemma_selling(placing, s2, w2, outcome, end, (fuel - 2) as nat);
                assert(without_cart(
                    without_cart(world.open->0.cart_items, placing.cart_id),
                    placing.cart_id,
                ) =~= without_cart(world.open->0.cart_items, placing.cart_id));
            }
        } else {
            lemma_selling(placing, s1, w1, outcome, end, (fuel - 1) as nat);
        }
    }
}

proof fn lemma_order_lines(items: Seq<CartItem>, products: Seq<Product>)
    requires
        order_lines(items, products) is Ok,
    ensures
        order_lines(items, products)->Ok_0.len() == items.len(),
        forall|i: int|
            0 <= i < items.len() ==> {
                let line = #[trigger] order_lines(items, products)->Ok_0[i];
                let found = product_of(products, items[i].product_id);
                &&& line.product_id == items[i].product_id
                &&& found is Some
                &&& found->0.id == line.product_id
                &&& found->0.price == line.price
                &&& found->0.status == ProductStatus::Available
            },
    decreases items.len(),
{
    if items.len() > 0 {
        lemma_order_lines(items.drop_last(), products);
        lemma_place_of(products, items.last().product_id);
        let lines = order_lines(items, products)->Ok_0;
        let before = order_lines(items.drop_last(), products)->Ok_0;
        assert forall|i: int| 0 <= i < items.len() implies {
            let line = #[trigger] lines[i];
            let found = product_of(products, items[i].product_id);
            &&& line.product_id == items[i].product_id
            &&& found is Some
            &&& found->0.id == line.product_id
            &&& found->0.price == line.price
            &&& found->0.status == ProductStatus::Available
        } by {
            if i < items.len() - 1 {
                assert(lines[i] == before[i]);
                assert(items.drop_last()[i] == items[i]);
            }
        }
    }
}

/// What the tables tell of the lines of an order that may be placed.
proof fn lemma_lines_told(
    store: Store,
    cart_id: Id,
    items: Seq<CartItem>,
    products: Seq<Product>,
)
    requires
        order_lines(items, products) is Ok,
        tells_products(store, item_products(items), products),
        tells_items(store, cart_id, items),
    ensures
        ({
            let lines = order_lines(items, products)->Ok_0;
            &&& line_products(lines).no_duplicates()
            &&& forall|product_id: Id| #[trigger]
                store.cart_items.contains((cart_id, product_id)) <==> line_products(
                    lines,
                ).contains(product_id)
            &&& forall|i: int|
                0 <= i < lines.len() ==> {
                    let line = #[trigger] lines[i];
                    &&& store.products.contains_key(line.product_id)
                    &&& store.products[line.product_id].price == line.price
                    &&& store.products[line.product_id].status == ProductStatus::Available
                }
        }),
{
    lemma_order_lines(items, products);
    let lines = order_lines(items, products)->Ok_0;
    assert forall|i: int| 0 <= i < lines.len() implies {
        let line = #[trigger] lines[i];
        &&& store.products.contains_key(line.product_id)
        &&& store.products[line.product_id].price == line.price
        &&& store.products[line.product_id].status == ProductStatus::Available
    } by {
        lemma_place_of(products, items[i].product_id);
        let place = place_of(products, items[i].product_id)->0;
        assert(products[place].id == lines[i].product_id);
    }
    assert forall|i: int, j: int| 0 <= i < j < lines.len() implies line_products(lines)[i]
        != line_products(lines)[j] by {
        assert(lines[i].product_id == items[i].product_id);
        assert(lines[j].product_id == items[j].product_id);
        assert(items[i].cart_id == items[j].cart_id);
        assert(items[i] != items[j]);
    }
    assert forall|product_id: Id| #[trigger]
        store.cart_items.contains((cart_id, product_id)) <==> line_products(lines).contains(
            product_id,
        ) by {
        if store.cart_items.contains((cart_id, product_id)) {
            assert(in_items(items, product_id));
            let i = choose|i: int|
                0 <= i < items.len() && (#[trigger] items[i]).product_id == product_id;
            assert(lines[i].product_id == product_id);
            assert(line_products(lines)[i] == product_id);
        }
        if line_products(lines).contains(product_id) {
            let i = choose|i: int|
                0 <= i < line_products(lines).len() && line_products(lines)[i] == product_id;
            assert(lines[i].product_id == items[i].product_id);
            assert(in_items(items, product_id));
        }
    }
}

/// Whether an order can be placed for what a buyer's cart holds: it holds something, each product in
/// it is for sale, and the ways to ship and to pay are known.
pub open spec fn orderable(store: Store, reading: Reading, checkout: Checkout) -> bool {
    &&& shipping_for(checkout.payload.shipping_method_key@) is Some
    &&& (reading.labels)(LabelKind::PaymentMethod, checkout.payload.payment_method@) is Some
    &&& exists|cart_id: Id|
        {
            &&& #[trigger] store.carts.contains_key(cart_id)
            &&& owned(checkout.owner, store.carts[cart_id])
            &&& holds_goods(store, cart_id)
        }
}

/// Whether a cart holds something, and only products that are for sale.
pub open spec fn holds_goods(store: Store, cart_id: Id) -> bool {
    &&& exists|product_id: Id| #[trigger] store.cart_items.contains((cart_id, product_id))
    &&& forall|product_id: Id| #[trigger]
        store.cart_items.contains((cart_id, product_id)) ==> for_sale(store, product_id)
}

proof fn lemma_lines_made(items: Seq<CartItem>, products: Seq<Product>)
    requires
        forall|i: int|
            0 <= i < items.len() ==> {
                let found = product_of(products, (#[trigger] items[i]).product_id);
                found is Some && found->0.status == ProductStatus::Available
            },
    ensures
        order_lines(items, products) is Ok,
    decreases items.len(),
{
    if items.len() > 0 {
        assert forall|i: int| 0 <= i < items.drop_last().len() implies {
            let found = product_of(products, (#[trigger] items.drop_last()[i]).product_id);
            found is Some && found->0.status == ProductStatus::Available
        } by {
            assert(items.drop_last()[i] == items[i]);
        }
        lemma_lines_made(items.drop_last(), products);
        assert(items.last() == items[items.len() - 1]);
    }
}

/// A cart that holds only products for sale gives the lines of an order.
proof fn lemma_goods_make_lines(
    store: Store,
    cart_id: Id,
    items: Seq<CartItem>,
    products: Seq<Product>,
)
    requires
        holds_goods(store, cart_id),
        tells_products(store, item_products(items), products),
        tells_items(store, cart_id, items),
    ensures
        order_lines(items, products) is Ok,
{
    assert forall|i: int| 0 <= i < items.len() implies {
        let found = product_of(products, (#[trigger] items[i]).product_id);
        found is Some && found->0.status == ProductStatus::Available
    } by {
        let id = items[i].product_id;
        assert(in_items(items, id));
        assert(store.cart_items.contains((cart_id, id)));
        assert(item_products(items)[i] == id);
        let k = choose|k: int| 0 <= k < products.len() && (#[trigger] products[k]).id == id;
        lemma_place_of(products, id);
        let place = place_of(products, id)->0;
        assert(products[place].id == id);
    }
    lemma_lines_made(items, products);
}

/// Placing an order does all of it or nothing, and is answered with success if and only if it is
/// done. It is done only if it can be; and where it can be, and no owner has two carts, it is done
/// unless a command fails.
pub proof fn law_order_placed(
    checkout: Checkout,
    start: World,
    outcome: Outcome,
    end: World,
    fuel: nat,
)
    requires
        runs(
            Step::Perform(CreateOrder::Opening(checkout), Command::Begin),
            start,
            outcome,
            end,
            fuel,
        ),
        at_rest(start),
    ensures
        settled(
            start.committed,
            end,
            some_order_was_placed(start.committed, end.committed, checkout, start.reading),
        ),
        (outcome matches Ok(response) && response.status == 200) <==> end.closing is Done,
        end.closing is Done ==> seen(outcome) == order_placed_answer(checkout.order_id),
        end.closing is Done ==> orderable(start.committed, start.reading, checkout),
        !end.failed && one_cart_each(start.committed) && orderable(
            start.committed,
            start.reading,
            checkout,
        ) ==> end.closing is Done,
{
    let before = start.committed;
    let s0 = Step::Perform(CreateOrder::Opening(checkout), Command::Begin);
    let (r1, w1, s1) = lemma_goes_on(s0, start, outcome, end, fuel);
    if s1 is Perform {
        let (r2, w2, s2) = lemma_goes_on(s1, w1, outcome, end, (fuel - 1) as nat);
        if s2 is Perform {
            let cart = s2->Perform_0->LoadingItems_cart;
            assert(before.carts.contains_key(cart.id));
            if one_cart_each(before) && orderable(before, start.reading, checkout) {
                let other = choose|other: Id|
                    {
                        &&& #[trigger] before.carts.contains_key(other)
                        &&& owned(checkout.owner, before.carts[other])
                        &&& holds_goods(before, other)
                    };
                assert(owned(checkout.owner, before.carts[cart.id]));
                assert(other == cart.id);
            }
            let (r3, w3, s3) = lemma_goes_on(s2, w2, outcome, end, (fuel - 2) as nat);
            if s3 is Perform {
                let items = s3->Perform_0->items@;
                let (r4, w4, s4) = lemma_goes_on(s3, w3, outcome, end, (fuel - 3) as nat);
                if !(r4 is Failed) && holds_goods(before, cart.id) {
                    lemma_goods_make_lines(before, cart.id, items, r4->Products_0@);
                }
                if s4 is Perform {
                    let products = r4->Products_0@;
                    lemma_lines_told(before, cart.id, items, products);
                    lemma_order_lines(items, products);
                    lemma_goods(before, cart.id, order_lines(items, products)->Ok_0);
                    lemma_payment_read(checkout, s4, w4, outcome, end, (fuel - 4) as nat);
                }
            } else if r3 is CartItems && holds_goods(before, cart.id) {
                let product_id = choose|product_id: Id| #[trigger]
                    before.cart_items.contains((cart.id, product_id));
                assert(in_items(r3->CartItems_0@, product_id));
            }
        }
    }
}

/// A cart whose products make the lines of an order holds only products for sale.
proof fn lemma_goods(store: Store, cart_id: Id, lines: Seq<OrderLine>)
    requires
        lines.len() > 0,
        forall|product_id: Id| #[trigger]
            store.cart_items.contains((cart_id, product_id)) <==> line_products(lines).contains(
                product_id,
            ),
        forall|i: int|
            0 <= i < lines.len() ==> {
                let line = #[trigger] lines[i];
                &&& store.products.contains_key(line.product_id)
                &&& store.products[line.product_id].price == line.price
                &&& store.products[line.product_id].status == ProductStatus::Available
            },
    ensures
        holds_goods(store, cart_id),
{
    assert(line_products(lines)[0] == lines[0].product_id);
    assert(store.cart_items.contains((cart_id, lines[0].product_id)));
    assert forall|product_id: Id| #[trigger]
        store.cart_items.contains((cart_id, product_id)) implies for_sale(store, product_id) by {
        let i = choose|i: int|
            0 <= i < line_products(lines).len() && line_products(lines)[i] == product_id;
        assert(lines[i].product_id == product_id);
    }
}

/// Whether a request has found what a buyer's cart holds, and now reads how it is paid for.
spec fn ready_to_pay(
    stage: CreateOrder,
    command: Command,
    checkout: Checkout,
    before: Store,
) -> bool {
    match stage {
        CreateOrder::ReadingPayment { checkout: kept, cart, shipping, lines, total } => {
            &&& command == Command::ReadLabel {
                kind: LabelKind::PaymentMethod,
                text: checkout.payload.payment_method,
            }
            &&& kept == checkout
            &&& holds_goods(before, cart.id)
            &&& shipping_for(checkout.payload.shipping_method_key@) == Some(shipping)
            &&& total == lines_total(lines@)
            &&& lines@.len() > 0
            &&& line_products(lines@).no_duplicates()
            &&& before.carts.contains_key(cart.id)
            &&& before.carts[cart.id] == cart_facts(cart)
            &&& owned(checkout.owner, before.carts[cart.id])
            &&& forall|product_id: Id| #[trigger]
                before.cart_items.contains((cart.id, product_id)) <==> line_products(
                    lines@,
                ).contains(product_id)
            &&& forall|i: int|
                0 <= i < lines@.len() ==> {
                    let line = #[trigger] lines@[i];
                    &&& before.products.contains_key(line.product_id)
                    &&& before.products[line.product_id].price == line.price
                    &&& before.products[line.product_id].status == ProductStatus::Available
                }
        },
        _ => false,
    }
}

proof fn lemma_payment_read(
    checkout: Checkout,
    step: Step<CreateOrder>,
    world: World,
    outcome: Outcome,
    end: World,
    fuel: nat,
)
    requires
        runs(step, world, outcome, end, fuel),
        world.open == Some(world.committed),
        world.closing is Untried,
        !world.failed,
        step matches Step::Perform(stage, command) && ready_to_pay(
            stage,
            command,
            checkout,
            world.committed,
        ),
    ensures
        settled(
            world.committed,
            end,
            some_order_was_placed(world.committed, end.committed, checkout, world.reading),
        ),
        succeeds(outcome) == (end.closing is Done),
        succeeds(outcome) ==> seen(outcome) == order_placed_answer(checkout.order_id),
        end.closing is Done ==> orderable(world.committed, world.reading, checkout),
        !end.failed && orderable(world.committed, world.reading, checkout) ==> end.closing is Done,
{
    let before = world.committed;
    let stage = step->Perform_0;
    let cart = stage->ReadingPayment_cart;
    let lines = stage->ReadingPayment_lines;
    let (r1, w1, s1) = lemma_goes_on(step, world, outcome, end, fuel);
    if s1 is Perform {
        let placing = s1->Perform_0->placing;
        let (r2, w2, s2) = lemma_goes_on(s1, w1, outcome, end, (fuel - 1) as nat);
        if s2 is Perform {
            assert(s2 == line_or_cart(placing, 0));
            lemma_lines_written(placing, 0, w2, outcome, end, (fuel - 2) as nat);
            let placed = rest_of_placing(w2.open->0, placing, 0);
            assert(order_was_placed(before, placed, checkout, cart.id, lines@, r1->Label_0));
        }
    }
}

/// Whether an order was deleted: it and its items are gone, its products are for sale, and nothing
/// else changed.
pub open spec fn order_was_deleted(before: Store, after: Store, order_id: Id) -> bool {
    after == Store {
        products: with_statuses(
            before.products,
            Set::new(|id: Id| in_order(before.order_items, order_id, id)),
            ProductStatus::Available,
        ),
        orders: before.orders.remove(order_id),
        order_items: without_order(before.order_items, order_id),
        ..before
    }
}

/// The answer to who deleted an order.
pub open spec fn order_deleted_answer() -> Answer {
    Answer {
        status: 200,
        headers: with_header(
            no_headers(),
            "HX-Trigger"@,
            json_text(toast_json("Zamowienie zostalo trwale usuniete."@, "success"@)),
        ),
        body: Content::Empty,
    }
}

proof fn lemma_items_deleted(
    order_id: Id,
    world: World,
    outcome: Outcome,
    end: World,
    fuel: nat,
)
    requires
        runs(deletes_items(order_id), world, outcome, end, fuel),
        world.open is Some,
        world.closing is Untried,
        !world.failed,
    ensures
        ({
            let store = world.open->0;
            let cleared = Store {
                orders: store.orders.remove(order_id),
                order_items: without_order(store.order_items, order_id),
                ..store
            };
            settled(world.committed, end, end.committed == cleared)
        }),
        outcome is Ok <==> end.closing is Done,
        outcome matches Ok(response) ==> response@ == order_deleted_answer(),
        !end.failed ==> outcome is Ok,
{
    reveal_strlit("Zamowienie zostalo trwale usuniete.");
    reveal_strlit("success");
    law_message_reaches_page("Zamowienie zostalo trwale usuniete."@, "success"@);
    let (r1, w1, s1) = lemma_goes_on(deletes_items(order_id), world, outcome, end, fuel);
    if s1 is Perform {
        let (r2, w2, s2) = lemma_goes_on(s1, w1, outcome, end, (fuel - 1) as nat);
        if s2 is Perform {
            let (r3, w3, s3) = lemma_goes_on(s2, w2, outcome, end, (fuel - 2) as nat);
            assert(s3 !is Perform);
        }
    }
}

/// Deleting an order does all of it or nothing, and is answered with success if and only if it is
/// done. Unless a command fails, it is done.
pub proof fn law_order_deleted(
    order_id: Id,
    start: World,
    outcome: Outcome,
    end: World,
    fuel: nat,
)
    requires
        runs(
            Step::Perform(DeleteOrder::Opening { order_id }, Command::Begin),
            start,
            outcome,
            end,
            fuel,
        ),
        at_rest(start),
    ensures
        settled(
            start.committed,
            end,
            order_was_deleted(start.committed, end.committed, order_id),
        ),
        outcome is Ok <==> end.closing is Done,
        outcome matches Ok(response) ==> response@ == order_deleted_answer(),
        !end.failed ==> outcome is Ok,
{
    let s0 = Step::Perform(DeleteOrder::Opening { order_id }, Command::Begin);
    let before = start.committed;
    let named = Set::new(|id: Id| in_order(before.order_items, order_id, id));
    let (r1, w1, s1) = lemma_goes_on(s0, start, outcome, end, fuel);
    if s1 is Perform {
        let (r2, w2, s2) = lemma_goes_on(s1, w1, outcome, end, (fuel - 1) as nat);
        if s2 is Perform {
            let ids = r2->Ids_0@;
            assert(ids.to_set() =~= named) by {
                assert forall|id: Id| ids.to_set().contains(id) == named.contains(id) by {
                    assert(ids.contains(id) == in_order(before.order_items, order_id, id));
                }
            }
            if ids.len() == 0 {
                assert(with_statuses(before.products, named, ProductStatus::Available)
                    =~= before.products) by {
                    assert forall|id: Id| !named.contains(id) by {
                        assert(!ids.contains(id));
                        assert(ids.to_set().contains(id) == ids.contains(id));
                    }
                }
                lemma_items_deleted(order_id, w2, outcome, end, (fuel - 2) as nat);
            } else {
                let (r3, w3, s3) = lemma_goes_on(s2, w2, outcome, end, (fuel - 2) as nat);
                if s3 is Perform {
                    lemma_items_deleted(order_id, w3, outcome, end, (fuel - 3) as nat);
                }
            }
        }
    }
}

proof fn lemma_with_lines(
    items: Multiset<OrderedItem>,
    order_id: Id,
    lines: Seq<OrderLine>,
    next: int,
)
    requires
        0 <= next <= lines.len(),
    ensures
        without_order(with_lines(items, order_id, lines, next), order_id) == without_order(
            items,
            order_id,
        ),
        forall|product_id: Id| #[trigger]
            in_order(with_lines(items, order_id, lines, next), order_id, product_id) <==> (
            in_order(items, order_id, product_id) || exists|i: int|
                next <= i < lines.len() && (#[trigger] lines[i]).product_id == product_id),
    decreases lines.len() - next,
{
    if next < lines.len() {
        let item = OrderedItem {
            order_id,
            product_id: lines[next].product_id,
            price: lines[next].price,
        };
        let more = items.insert(item);
        lemma_with_lines(more, order_id, lines, next + 1);
        assert(without_order(more, order_id) =~= without_order(items, order_id));
        assert forall|product_id: Id|
            in_order(more, order_id, product_id) <==> (in_order(items, order_id, product_id)
                || item.product_id == product_id) by {
            if in_order(more, order_id, product_id) {
                let found = choose|found: OrderedItem| #[trigger]
                    more.contains(found) && found.product_id == product_id && found.order_id
                        == order_id;
                assert(found == item || items.contains(found));
            }
            if in_order(items, order_id, product_id) {
                let found = choose|found: OrderedItem| #[trigger]
                    items.contains(found) && found.product_id == product_id && found.order_id
                        == order_id;
                assert(more.contains(found));
            }
            assert(more.contains(item));
        }
        assert forall|product_id: Id| #[trigger]
            in_order(with_lines(items, order_id, lines, next), order_id, product_id) <==> (
            in_order(items, order_id, product_id) || exists|i: int|
                next <= i < lines.len() && (#[trigger] lines[i]).product_id == product_id) by {
            if lines[next].product_id == product_id {
                assert(in_order(more, order_id, product_id));
            }
        }
    }
}

/// Deleting an order that was just placed puts its products on sale again, and leaves products and
/// orders as they were before it.
pub proof fn law_deleting_undoes_placing(
    start: Store,
    placed: Store,
    deleted: Store,
    checkout: Checkout,
    cart_id: Id,
    lines: Seq<OrderLine>,
    payment_method: String,
)
    requires
        order_was_placed(start, placed, checkout, cart_id, lines, payment_method),
        order_was_deleted(placed, deleted, checkout.order_id),
        forall|item: OrderedItem| #[trigger]
            start.order_items.contains(item) ==> start.orders.contains_key(item.order_id),
    ensures
        deleted.products == start.products,
        deleted.orders == start.orders,
        deleted.order_items == start.order_items,
        deleted.carts == placed.carts,
        deleted.cart_items == placed.cart_items,
{
    let order_id = checkout.order_id;
    lemma_with_lines(start.order_items, order_id, lines, 0);
    assert(without_order(start.order_items, order_id) =~= start.order_items) by {
        assert forall|item: OrderedItem| item.order_id == order_id implies #[trigger]
            start.order_items.count(item) == 0 by {
            assert(!start.order_items.contains(item));
        }
    }
    assert forall|product_id: Id| #[trigger]
        in_order(placed.order_items, order_id, product_id) <==> line_products(lines).contains(
            product_id,
        ) by {
        assert(!in_order(start.order_items, order_id, product_id));
        if line_products(lines).contains(product_id) {
            let i = choose|i: int|
                0 <= i < line_products(lines).len() && line_products(lines)[i] == product_id;
            assert(lines[i].product_id == product_id);
        }
        if exists|i: int| 0 <= i < lines.len() && (#[trigger] lines[i]).product_id == product_id {
            let i = choose|i: int|
                0 <= i < lines.len() && (#[trigger] lines[i]).product_id == product_id;
            assert(line_products(lines)[i] == product_id);
        }
    }
    assert(deleted.products =~= start.products) by {
        assert forall|id: Id| start.products.contains_key(id) implies #[trigger]
            deleted.products[id] == start.products[id] by {
            if line_products(lines).contains(id) {
                let i = choose|i: int|
                    0 <= i < line_products(lines).len() && line_products(lines)[i] == id;
                assert(lines[i].product_id == id);
                assert(in_order(placed.order_items, order_id, id));
            } else {
                assert(!in_order(placed.order_items, order_id, id));
            }
        }
    }
    assert(deleted.orders =~= start.orders);
}

} // verus!
