//! What changing a cart leaves in the tables.
use crate::handlers::carts::{
    asks, commits, finds_guest, locks_product, puts_in, remove_form, CartForm, ChangeCart, ShowCart,
};
use crate::ids::{uuid_text, Id};
use crate::laws::told::law_header_names;
use crate::models::{CartDetailsResponse, ProductStatus};
use crate::protocol::{
    seen, Answer, CartOwner, Command, Content, Fault, Outcome, Query, Reply, Step,
};
use crate::store::{
    at_rest, lemma_goes_on, moved, new_cart, owned, runs, runs_query, settled, without_cart,
    CartFacts, Service, Store, World,
};
use vstd::prelude::*;
use vstd::utf8::encode_utf8;

verus! {

/// Whether this owner has a cart.
pub open spec fn owns_cart(store: Store, owner: CartOwner) -> bool {
    exists|id: Id| #[trigger] store.carts.contains_key(id) && owned(owner, store.carts[id])
}

/// Whether no owner has two carts.
pub open spec fn one_cart_each(store: Store) -> bool {
    forall|owner: CartOwner, one: Id, other: Id|
        #![trigger owned(owner, store.carts[one]), owned(owner, store.carts[other])]
        store.carts.contains_key(one) && store.carts.contains_key(other) && owned(
            owner,
            store.carts[one],
        ) && owned(owner, store.carts[other]) ==> one == other
}

/// Whether `after` has this owner's cart: it was there before, or the owner had none, and it is new
/// and the only change.
pub open spec fn has_cart(before: Store, after: Store, owner: CartOwner, cart_id: Id) -> bool {
    ||| after == before && before.carts.contains_key(cart_id) && owned(owner, before.carts[cart_id])
    ||| !before.carts.contains_key(cart_id) && !owns_cart(before, owner) && after == Store {
        carts: before.carts.insert(cart_id, new_cart(owner)),
        ..before
    }
}

/// Whether a product was put into this owner's cart, and nothing else changed but that the cart
/// may be new.
pub open spec fn put_in(before: Store, after: Store, owner: CartOwner, product_id: Id) -> bool {
    exists|made: Store, cart_id: Id|
        {
            &&& #[trigger] has_cart(before, made, owner, cart_id)
            &&& after == Store {
                cart_items: made.cart_items.insert((cart_id, product_id)),
                ..made
            }
        }
}

/// Whether a product was taken out of this owner's cart, and nothing else changed.
pub open spec fn taken_out(before: Store, after: Store, owner: CartOwner, product_id: Id) -> bool {
    exists|cart_id: Id|
        {
            &&& #[trigger] before.carts.contains_key(cart_id)
            &&& owned(owner, before.carts[cart_id])
            &&& after == Store {
                cart_items: before.cart_items.remove((cart_id, product_id)),
                ..before
            }
        }
}

/// Whether a guest's cart was made a user's. The user's cart holds what either held, and the guest's
/// is gone; where both are one cart, it is the user's alone; where the guest has none, the user's
/// stays as it is.
pub open spec fn merged(before: Store, after: Store, user_id: Id, session: Id) -> bool {
    exists|made: Store, cart_id: Id| #[trigger]
        has_cart(before, made, CartOwner::User(user_id), cart_id) && merged_into(
            made,
            after,
            user_id,
            cart_id,
            session,
        )
}

/// Whether a guest's cart was made part of this cart of a user.
pub open spec fn merged_into(
    made: Store,
    after: Store,
    user_id: Id,
    cart_id: Id,
    session: Id,
) -> bool {
    let guest = CartOwner::Guest(session);
    ||| after == made && !owns_cart(made, guest)
    ||| owned(guest, made.carts[cart_id]) && after == Store {
        carts: made.carts.insert(
            cart_id,
            CartFacts { guest_session_id: None, ..made.carts[cart_id] },
        ),
        ..made
    }
    ||| exists|guest_cart: Id|
        {
            &&& #[trigger] made.carts.contains_key(guest_cart)
            &&& guest_cart != cart_id
            &&& owned(guest, made.carts[guest_cart])
            &&& after == Store {
                carts: made.carts.remove(guest_cart),
                cart_items: without_cart(
                    moved(made.cart_items, cart_id, guest_cart),
                    guest_cart,
                ),
                ..made
            }
        }
}

/// Whether a query can leave these tables.
spec fn can_change(before: Store, query: Query, after: Store) -> bool {
    exists|reply: Reply| !(reply is Failed) && #[trigger] runs_query(before, query, reply, after)
}

/// The answer that shows a cart: to a user as it is; to a guest with the id of the session, which a
/// header repeats where a product was put in.
pub open spec fn shown_as(form: CartForm, details: CartDetailsResponse) -> Result<Answer, Fault> {
    Ok(
        match form {
            CartForm::Plain => Answer {
                status: 200,
                headers: Map::empty(),
                body: Content::Cart(details),
            },
            CartForm::Guest { session, tagged } => Answer {
                status: 200,
                headers: if tagged {
                    Map::<Seq<char>, Seq<Seq<u8>>>::empty().insert(
                        "x-guest-cart-id"@,
                        seq![encode_utf8(uuid_text(session))],
                    )
                } else {
                    Map::empty()
                },
                body: Content::GuestCart { guest_cart_id: session, cart_details: details },
            },
        },
    )
}

/// Whether the answer is this cart as it was described after everything else was done.
pub open spec fn cart_was_shown(
    before: Seq<Service>,
    outcome: Outcome,
    end: World,
    cart_id: Id,
    form: CartForm,
) -> bool {
    exists|details: CartDetailsResponse|
        {
            &&& end.services == before.push(
                #[trigger] described(cart_id, details),
            )
            &&& seen(outcome) == shown_as(form, details)
        }
}

/// A description of a cart.
pub open spec fn described(cart_id: Id, details: CartDetailsResponse) -> Service {
    Service::Described { cart_id, details }
}

/// Whether the answer is a cart of this owner.
pub open spec fn own_cart_was_shown(
    before: Seq<Service>,
    outcome: Outcome,
    end: World,
    owner: CartOwner,
    form: CartForm,
) -> bool {
    exists|cart_id: Id|
        {
            &&& end.committed.carts.contains_key(cart_id)
            &&& owned(owner, end.committed.carts[cart_id])
            &&& #[trigger] cart_was_shown(before, outcome, end, cart_id, form)
        }
}

/// From the commit on: where it is done, the transaction lasts; the answer fails only where a
/// command does, or the cart is gone.
proof fn lemma_tail(
    cart_id: Id,
    form: CartForm,
    world: World,
    outcome: Outcome,
    end: World,
    fuel: nat,
)
    requires
        runs(commits(cart_id, form), world, outcome, end, fuel),
        world.open is Some,
        !world.failed,
    ensures
        !(end.closing is Untried),
        end.closing is Done ==> end.committed == world.open->0,
        end.committed == world.open->0 || end.committed == world.committed,
        outcome is Ok ==> end.closing is Done,
        !end.failed ==> end.closing is Done,
        !end.failed && world.open->0.carts.contains_key(cart_id) ==> outcome is Ok,
        outcome is Ok ==> cart_was_shown(world.services, outcome, end, cart_id, form),
        outcome is Ok ==> end.committed.carts.contains_key(cart_id),
{
    law_header_names();
    let (r1, w1, s1) = lemma_goes_on(commits(cart_id, form), world, outcome, end, fuel);
    if s1 is Perform {
        let (r2, w2, s2) = lemma_goes_on(s1, w1, outcome, end, (fuel - 1) as nat);
        if s2 is Perform {
            let (r3, w3, s3) = lemma_goes_on(s2, w2, outcome, end, (fuel - 2) as nat);
            if s3 is Perform {
                let (r4, w4, s4) = lemma_goes_on(s3, w3, outcome, end, (fuel - 3) as nat);
                assert(s4 !is Perform);
                if !(r4 is Failed) {
                    assert(end.services == world.services.push(
                        described(cart_id, r4->CartDetails_0),
                    ));
                }
            }
        }
    }
}

/// The last change of a transaction, then its commit.
proof fn lemma_last_change(
    cart_id: Id,
    form: CartForm,
    query: Query,
    world: World,
    outcome: Outcome,
    end: World,
    fuel: nat,
)
    requires
        runs(asks(ChangeCart::Changing { cart_id, form }, query), world, outcome, end, fuel),
        world.open is Some,
        world.closing is Untried,
        !world.failed,
    ensures
        settled(world.committed, end, can_change(world.open->0, query, end.committed)),
        outcome is Ok ==> end.closing is Done,
        !end.failed ==> end.closing is Done,
        !end.failed && end.committed.carts.contains_key(cart_id) ==> outcome is Ok,
        outcome is Ok ==> cart_was_shown(world.services, outcome, end, cart_id, form),
        outcome is Ok ==> end.committed.carts.contains_key(cart_id),
{
    let step = asks(ChangeCart::Changing { cart_id, form }, query);
    let (r1, w1, s1) = lemma_goes_on(step, world, outcome, end, fuel);
    if !(r1 is Failed) {
        assert(s1 == commits(cart_id, form));
        assert(runs_query(world.open->0, query, r1, w1.open->0));
        lemma_tail(cart_id, form, w1, outcome, end, (fuel - 1) as nat);
    }
}

/// Putting a product into a user's cart does all of it or nothing. Unless a command fails, it is done
/// if and only if the product is there and for sale.
pub proof fn law_user_item_added(
    user_id: Id,
    product_id: Id,
    start: World,
    outcome: Outcome,
    end: World,
    fuel: nat,
)
    requires
        runs(
            Step::Perform(ChangeCart::AddOpening { user_id, product_id }, Command::Begin),
            start,
            outcome,
            end,
            fuel,
        ),
        at_rest(start),
    ensures
        settled(
            start.committed,
            end,
            put_in(start.committed, end.committed, CartOwner::User(user_id), product_id),
        ),
        outcome is Ok ==> end.closing is Done && for_sale(start.committed, product_id),
        outcome is Ok ==> own_cart_was_shown(
            start.services,
            outcome,
            end,
            CartOwner::User(user_id),
            CartForm::Plain,
        ),
        !end.failed && for_sale(start.committed, product_id) ==> outcome is Ok,
{
    let s0 = Step::Perform(ChangeCart::AddOpening { user_id, product_id }, Command::Begin);
    let owner = CartOwner::User(user_id);
    let before = start.committed;
    let (r1, w1, s1) = lemma_goes_on(s0, start, outcome, end, fuel);
    if s1 is Perform {
        let (r2, w2, s2) = lemma_goes_on(s1, w1, outcome, end, (fuel - 1) as nat);
        if s2 is Perform {
            if s2->Perform_0 is AddMakingCart {
                let (r3, w3, s3) = lemma_goes_on(s2, w2, outcome, end, (fuel - 2) as nat);
                if s3 is Perform {
                    let cart_id = s3->Perform_0->AddLocking_cart_id;
                    assert(has_cart(before, w3.open->0, owner, cart_id));
                    lemma_locked(user_id, product_id, cart_id, w3, outcome, end, (fuel - 3) as nat);
                }
            } else {
                let cart_id = s2->Perform_0->AddLocking_cart_id;
                assert(has_cart(before, w2.open->0, owner, cart_id));
                lemma_locked(user_id, product_id, cart_id, w2, outcome, end, (fuel - 2) as nat);
            }
        }
    }
}

/// Whether a product is there and for sale.
pub open spec fn for_sale(store: Store, product_id: Id) -> bool {
    store.products.contains_key(product_id) && store.products[product_id].status
        == ProductStatus::Available
}

proof fn lemma_locked(
    user_id: Id,
    product_id: Id,
    cart_id: Id,
    world: World,
    outcome: Outcome,
    end: World,
    fuel: nat,
)
    requires
        runs(locks_product(cart_id, product_id), world, outcome, end, fuel),
        world.open is Some,
        world.closing is Untried,
        !world.failed,
        has_cart(world.committed, world.open->0, CartOwner::User(user_id), cart_id),
    ensures
        settled(
            world.committed,
            end,
            put_in(world.committed, end.committed, CartOwner::User(user_id), product_id),
        ),
        outcome is Ok ==> end.closing is Done && for_sale(world.committed, product_id),
        outcome is Ok ==> own_cart_was_shown(
            world.services,
            outcome,
            end,
            CartOwner::User(user_id),
            CartForm::Plain,
        ),
        !end.failed && for_sale(world.committed, product_id) ==> outcome is Ok,
{
    let step = locks_product(cart_id, product_id);
    let (r1, w1, s1) = lemma_goes_on(step, world, outcome, end, fuel);
    if s1 is Perform {
        assert(s1 == puts_in(cart_id, product_id, CartForm::Plain));
        lemma_last_change(
            cart_id,
            CartForm::Plain,
            Query::InsertCartItem { cart_id, product_id },
            w1,
            outcome,
            end,
            (fuel - 1) as nat,
        );
    }
}

/// Putting a product into a guest's cart does all of it or nothing. Unless a command fails, it is
/// done.
pub proof fn law_guest_item_added(
    session: Id,
    known: bool,
    product_id: Id,
    start: World,
    outcome: Outcome,
    end: World,
    fuel: nat,
)
    requires
        runs(
            Step::Perform(
                ChangeCart::GuestOpening { session, known, product_id },
                Command::Begin,
            ),
            start,
            outcome,
            end,
            fuel,
        ),
        at_rest(start),
        !known ==> !owns_cart(start.committed, CartOwner::Guest(session)),
    ensures
        settled(
            start.committed,
            end,
            put_in(start.committed, end.committed, CartOwner::Guest(session), product_id),
        ),
        outcome is Ok ==> end.closing is Done,
        outcome is Ok ==> own_cart_was_shown(
            start.services,
            outcome,
            end,
            CartOwner::Guest(session),
            CartForm::Guest { session, tagged: true },
        ),
        !end.failed ==> outcome is Ok,
{
    let owner = CartOwner::Guest(session);
    let before = start.committed;
    let form = CartForm::Guest { session, tagged: true };
    let s0 = Step::Perform(ChangeCart::GuestOpening { session, known, product_id }, Command::Begin);
    let (r1, w1, s1) = lemma_goes_on(s0, start, outcome, end, fuel);
    if s1 is Perform {
        let (r2, w2, s2) = lemma_goes_on(s1, w1, outcome, end, (fuel - 1) as nat);
        if s2 is Perform {
            if s2->Perform_0 is GuestMakingCart {
                let (r3, w3, s3) = lemma_goes_on(s2, w2, outcome, end, (fuel - 2) as nat);
                if s3 is Perform {
                    let cart_id = s3->Perform_0->Changing_cart_id;
                    assert(has_cart(before, w3.open->0, owner, cart_id));
                    assert(s3 == puts_in(cart_id, product_id, form));
                    lemma_last_change(
                        cart_id,
                        form,
                        Query::InsertCartItem { cart_id, product_id },
                        w3,
                        outcome,
                        end,
                        (fuel - 3) as nat,
                    );
                }
            } else {
                let cart_id = s2->Perform_0->Changing_cart_id;
                assert(has_cart(before, w2.open->0, owner, cart_id));
                assert(s2 == puts_in(cart_id, product_id, form));
                lemma_last_change(
                    cart_id,
                    form,
                    Query::InsertCartItem { cart_id, product_id },
                    w2,
                    outcome,
                    end,
                    (fuel - 2) as nat,
                );
            }
        }
    }
}

/// Taking a product out of a cart does all of it or nothing. Unless a command fails, it is done if
/// and only if the owner has a cart.
pub proof fn law_item_removed(
    owner: CartOwner,
    product_id: Id,
    start: World,
    outcome: Outcome,
    end: World,
    fuel: nat,
)
    requires
        runs(
            Step::Perform(ChangeCart::RemoveOpening { owner, product_id }, Command::Begin),
            start,
            outcome,
            end,
            fuel,
        ),
        at_rest(start),
    ensures
        settled(
            start.committed,
            end,
            taken_out(start.committed, end.committed, owner, product_id),
        ),
        outcome is Ok ==> end.closing is Done && owns_cart(start.committed, owner),
        outcome is Ok ==> own_cart_was_shown(
            start.services,
            outcome,
            end,
            owner,
            match owner {
                CartOwner::User(_) => CartForm::Plain,
                CartOwner::Guest(session) => CartForm::Guest { session, tagged: false },
            },
        ),
        !end.failed && owns_cart(start.committed, owner) ==> outcome is Ok,
{
    let s0 = Step::Perform(ChangeCart::RemoveOpening { owner, product_id }, Command::Begin);
    let before = start.committed;
    let (r1, w1, s1) = lemma_goes_on(s0, start, outcome, end, fuel);
    if s1 is Perform {
        let (r2, w2, s2) = lemma_goes_on(s1, w1, outcome, end, (fuel - 1) as nat);
        if s2 is Perform {
            let cart_id = s2->Perform_0->Changing_cart_id;
            assert(before.carts.contains_key(cart_id));
            lemma_last_change(
                cart_id,
                remove_form(owner),
                Query::DeleteCartItem { cart_id, product_id },
                w2,
                outcome,
                end,
                (fuel - 2) as nat,
            );
        }
    }
}

/// Making a guest's cart a user's does all of it or nothing. Unless a command fails, it is done.
pub proof fn law_carts_merged(
    user_id: Id,
    session: Id,
    start: World,
    outcome: Outcome,
    end: World,
    fuel: nat,
)
    requires
        runs(
            Step::Perform(ChangeCart::MergeOpening { user_id, session }, Command::Begin),
            start,
            outcome,
            end,
            fuel,
        ),
        at_rest(start),
    ensures
        settled(start.committed, end, merged(start.committed, end.committed, user_id, session)),
        outcome is Ok ==> end.closing is Done,
        outcome is Ok ==> own_cart_was_shown(
            start.services,
            outcome,
            end,
            CartOwner::User(user_id),
            CartForm::Plain,
        ),
        !end.failed ==> outcome is Ok,
{
    let owner = CartOwner::User(user_id);
    let before = start.committed;
    let s0 = Step::Perform(ChangeCart::MergeOpening { user_id, session }, Command::Begin);
    let (r1, w1, s1) = lemma_goes_on(s0, start, outcome, end, fuel);
    if s1 is Perform {
        let (r2, w2, s2) = lemma_goes_on(s1, w1, outcome, end, (fuel - 1) as nat);
        if s2 is Perform {
            if s2->Perform_0 is MergeMakingCart {
                let (r3, w3, s3) = lemma_goes_on(s2, w2, outcome, end, (fuel - 2) as nat);
                if s3 is Perform {
                    let cart_id = s3->Perform_0->MergeFindingGuest_cart_id;
                    assert(has_cart(before, w3.open->0, owner, cart_id));
                    lemma_guest_found(
                        user_id,
                        cart_id,
                        session,
                        w3,
                        outcome,
                        end,
                        (fuel - 3) as nat,
                    );
                }
            } else {
                let cart_id = s2->Perform_0->MergeFindingGuest_cart_id;
                assert(has_cart(before, w2.open->0, owner, cart_id));
                lemma_guest_found(user_id, cart_id, session, w2, outcome, end, (fuel - 2) as nat);
            }
        }
    }
}

proof fn lemma_guest_found(
    user_id: Id,
    cart_id: Id,
    session: Id,
    world: World,
    outcome: Outcome,
    end: World,
    fuel: nat,
)
    requires
        runs(finds_guest(user_id, cart_id, session), world, outcome, end, fuel),
        world.open is Some,
        world.closing is Untried,
        !world.failed,
        has_cart(world.committed, world.open->0, CartOwner::User(user_id), cart_id),
    ensures
        settled(world.committed, end, merged(world.committed, end.committed, user_id, session)),
        outcome is Ok ==> end.closing is Done,
        outcome is Ok ==> own_cart_was_shown(
            world.services,
            outcome,
            end,
            CartOwner::User(user_id),
            CartForm::Plain,
        ),
        !end.failed ==> outcome is Ok,
{
    let made = world.open->0;
    let step = finds_guest(user_id, cart_id, session);
    let (r1, w1, s1) = lemma_goes_on(step, world, outcome, end, fuel);
    if s1 is Perform {
        if s1->Perform_0 is Committing {
            assert(s1 == commits(cart_id, CartForm::Plain));
            lemma_tail(cart_id, CartForm::Plain, w1, outcome, end, (fuel - 1) as nat);
            assert(merged_into(made, made, user_id, cart_id, session));
        } else if s1->Perform_0 is Changing {
            let query = Query::DetachGuest { cart_id, user_id };
            lemma_last_change(
                cart_id,
                CartForm::Plain,
                query,
                w1,
                outcome,
                end,
                (fuel - 1) as nat,
            );
            assert(can_change(made, query, end.committed) ==> merged_into(
                made,
                end.committed,
                user_id,
                cart_id,
                session,
            ));
        } else {
            let guest_cart = s1->Perform_0->MergeMoving_guest_cart_id;
            let (r2, w2, s2) = lemma_goes_on(s1, w1, outcome, end, (fuel - 1) as nat);
            if s2 is Perform {
                let query = Query::DeleteCart { id: guest_cart };
                lemma_last_change(
                    cart_id,
                    CartForm::Plain,
                    query,
                    w2,
                    outcome,
                    end,
                    (fuel - 2) as nat,
                );
                assert(made.carts.contains_key(guest_cart));
                assert(can_change(w2.open->0, query, end.committed) ==> merged_into(
                    made,
                    end.committed,
                    user_id,
                    cart_id,
                    session,
                ));
            }
        }
    }
}

/// After a merge the user has a cart that holds what the two carts held, no cart is the guest's, and
/// no other cart changed.
pub proof fn law_merge_leaves_one_cart(before: Store, after: Store, user_id: Id, session: Id)
    requires
        merged(before, after, user_id, session),
        one_cart_each(before),
        forall|item: (Id, Id)| #[trigger]
            before.cart_items.contains(item) ==> before.carts.contains_key(item.0),
    ensures
        !owns_cart(after, CartOwner::Guest(session)),
        one_cart_each(after),
        exists|cart_id: Id|
            {
                &&& #[trigger] after.carts.contains_key(cart_id)
                &&& owned(CartOwner::User(user_id), after.carts[cart_id])
                &&& forall|product_id: Id| #[trigger]
                    after.cart_items.contains((cart_id, product_id)) <==> (in_cart_of(
                        before,
                        CartOwner::User(user_id),
                        product_id,
                    ) || in_cart_of(before, CartOwner::Guest(session), product_id))
            },
        forall|id: Id|
            before.carts.contains_key(id) && !owned(CartOwner::User(user_id), before.carts[id])
                && !owned(CartOwner::Guest(session), before.carts[id])
                ==> #[trigger] after.carts.contains_key(id) && after.carts[id] == before.carts[id],
        forall|item: (Id, Id)|
            before.carts.contains_key(item.0) && !owned(
                CartOwner::User(user_id),
                before.carts[item.0],
            ) && !owned(CartOwner::Guest(session), before.carts[item.0]) ==> (
            #[trigger] after.cart_items.contains(item) == before.cart_items.contains(item)),
        after.products == before.products,
        after.orders == before.orders,
        after.order_items == before.order_items,
{
    let user = CartOwner::User(user_id);
    let guest = CartOwner::Guest(session);
    let (made, cart_id) = choose|made: Store, cart_id: Id| #[trigger]
        has_cart(before, made, user, cart_id) && merged_into(
            made,
            after,
            user_id,
            cart_id,
            session,
        );
    assert(made.carts.contains_key(cart_id) && owned(user, made.carts[cart_id]));
    assert forall|product_id: Id|
        before.cart_items.contains((cart_id, product_id)) == in_cart_of(before, user, product_id) by {
        lemma_in_cart_of(before, made, user, cart_id, product_id);
    }
    if after == made && !owns_cart(made, guest) {
        assert(!owns_cart(before, guest)) by {
            if owns_cart(before, guest) {
                let id = choose|id: Id| #[trigger]
                    before.carts.contains_key(id) && owned(guest, before.carts[id]);
                assert(made.carts.contains_key(id));
            }
        }
        assert(after.carts.contains_key(cart_id));
    } else if owned(guest, made.carts[cart_id]) && after == (Store {
        carts: made.carts.insert(
            cart_id,
            CartFacts { guest_session_id: None, ..made.carts[cart_id] },
        ),
        ..made
    }) {
        assert(made == before);
        assert(after.carts.contains_key(cart_id));
        assert forall|product_id: Id|
            before.cart_items.contains((cart_id, product_id)) == in_cart_of(
                before,
                guest,
                product_id,
            ) by {
            lemma_in_cart_of(before, made, guest, cart_id, product_id);
        }
        assert(!owns_cart(after, guest)) by {
            if owns_cart(after, guest) {
                let id = choose|id: Id| #[trigger]
                    after.carts.contains_key(id) && owned(guest, after.carts[id]);
                assert(owned(guest, before.carts[id]));
                assert(owned(guest, before.carts[cart_id]));
                assert(id == cart_id);
            }
        }
    } else {
        let guest_cart = choose|guest_cart: Id|
            {
                &&& #[trigger] made.carts.contains_key(guest_cart)
                &&& guest_cart != cart_id
                &&& owned(guest, made.carts[guest_cart])
                &&& after == Store {
                    carts: made.carts.remove(guest_cart),
                    cart_items: without_cart(
                        moved(made.cart_items, cart_id, guest_cart),
                        guest_cart,
                    ),
                    ..made
                }
            };
        assert(before.carts.contains_key(guest_cart));
        assert(owned(guest, before.carts[guest_cart]));
        assert forall|product_id: Id|
            before.cart_items.contains((guest_cart, product_id)) == in_cart_of(
                before,
                guest,
                product_id,
            ) by {
            lemma_in_cart_of(before, before, guest, guest_cart, product_id);
        }
        assert(after.carts.contains_key(cart_id));
        law_merge_unites(made.cart_items, cart_id, guest_cart);
        assert(!owns_cart(after, guest)) by {
            if owns_cart(after, guest) {
                let id = choose|id: Id| #[trigger]
                    after.carts.contains_key(id) && owned(guest, after.carts[id]);
                assert(before.carts.contains_key(id));
                assert(owned(guest, before.carts[id]));
            }
        }
    }
}

/// Whether a product is in a cart of this owner.
pub open spec fn in_cart_of(store: Store, owner: CartOwner, product_id: Id) -> bool {
    exists|id: Id|
        {
            &&& #[trigger] store.carts.contains_key(id)
            &&& owned(owner, store.carts[id])
            &&& store.cart_items.contains((id, product_id))
        }
}

proof fn lemma_in_cart_of(
    before: Store,
    made: Store,
    owner: CartOwner,
    cart_id: Id,
    product_id: Id,
)
    requires
        one_cart_each(before),
        made == before && before.carts.contains_key(cart_id) && owned(owner, before.carts[cart_id])
            || !before.carts.contains_key(cart_id) && !owns_cart(before, owner),
        forall|item: (Id, Id)| #[trigger]
            before.cart_items.contains(item) ==> before.carts.contains_key(item.0),
    ensures
        before.cart_items.contains((cart_id, product_id)) == in_cart_of(before, owner, product_id),
{
    if in_cart_of(before, owner, product_id) {
        let id = choose|id: Id|
            {
                &&& #[trigger] before.carts.contains_key(id)
                &&& owned(owner, before.carts[id])
                &&& before.cart_items.contains((id, product_id))
            };
        if before.carts.contains_key(cart_id) {
            assert(owned(owner, before.carts[cart_id]));
            assert(id == cart_id);
        }
    }
}

/// A second merge of the same carts changes nothing.
pub proof fn law_second_merge_changes_nothing(
    before: Store,
    once: Store,
    twice: Store,
    user_id: Id,
    session: Id,
)
    requires
        merged(before, once, user_id, session),
        merged(once, twice, user_id, session),
        one_cart_each(before),
        forall|item: (Id, Id)| #[trigger]
            before.cart_items.contains(item) ==> before.carts.contains_key(item.0),
    ensures
        twice == once,
{
    law_merge_leaves_one_cart(before, once, user_id, session);
    let user = CartOwner::User(user_id);
    let guest = CartOwner::Guest(session);
    assert(owns_cart(once, user));
    let (made, cart_id) = choose|made: Store, cart_id: Id| #[trigger]
        has_cart(once, made, user, cart_id) && merged_into(made, twice, user_id, cart_id, session);
    assert(made == once);
}

/// What was in either cart is in the one that stays, and nothing is left of the other.
pub proof fn law_merge_unites(items: Set<(Id, Id)>, to: Id, from: Id)
    requires
        to != from,
    ensures
        forall|product_id: Id| #[trigger]
            without_cart(moved(items, to, from), from).contains((to, product_id)) <==> (
            items.contains((to, product_id)) || items.contains((from, product_id))),
        forall|product_id: Id|
            !(#[trigger] without_cart(moved(items, to, from), from).contains((from, product_id))),
        forall|cart_id: Id, product_id: Id|
            cart_id != to && cart_id != from ==> (#[trigger] without_cart(
                moved(items, to, from),
                from,
            ).contains((cart_id, product_id)) <==> items.contains((cart_id, product_id))),
{
}

/// A product that was put into a cart and taken out again leaves the cart without it, and every
/// other item of any cart as it was.
pub proof fn law_taking_out_undoes_putting_in(
    start: Store,
    filled: Store,
    emptied: Store,
    owner: CartOwner,
    product_id: Id,
)
    requires
        put_in(start, filled, owner, product_id),
        taken_out(filled, emptied, owner, product_id),
        forall|one: Id, other: Id|
            #![trigger filled.carts.contains_key(one), filled.carts.contains_key(other)]
            filled.carts.contains_key(one) && filled.carts.contains_key(other) && owned(
                owner,
                filled.carts[one],
            ) && owned(owner, filled.carts[other]) ==> one == other,
    ensures
        exists|cart_id: Id| #[trigger]
            filled.carts.contains_key(cart_id) && owned(owner, filled.carts[cart_id])
                && emptied.cart_items == start.cart_items.remove((cart_id, product_id)),
        emptied.products == start.products,
        emptied.orders == start.orders,
        emptied.order_items == start.order_items,
{
    let (made, cart_id) = choose|made: Store, cart_id: Id|
        {
            &&& #[trigger] has_cart(start, made, owner, cart_id)
            &&& filled == Store {
                cart_items: made.cart_items.insert((cart_id, product_id)),
                ..made
            }
        };
    assert(filled.carts.contains_key(cart_id));
    assert(owned(owner, filled.carts[cart_id]));
    let other = choose|other: Id|
        {
            &&& #[trigger] filled.carts.contains_key(other)
            &&& owned(owner, filled.carts[other])
            &&& emptied == Store {
                cart_items: filled.cart_items.remove((other, product_id)),
                ..filled
            }
        };
    assert(other == cart_id);
    assert(emptied.cart_items =~= start.cart_items.remove((cart_id, product_id)));
}

/// A second request to merge the same carts changes nothing, however it ends.
pub proof fn law_merging_twice(
    user_id: Id,
    session: Id,
    start: World,
    first: Outcome,
    between: World,
    again: World,
    second: Outcome,
    end: World,
    fuel: nat,
)
    requires
        runs(
            Step::Perform(ChangeCart::MergeOpening { user_id, session }, Command::Begin),
            start,
            first,
            between,
            fuel,
        ),
        runs(
            Step::Perform(ChangeCart::MergeOpening { user_id, session }, Command::Begin),
            again,
            second,
            end,
            fuel,
        ),
        at_rest(start),
        at_rest(again),
        first is Ok,
        again.committed == between.committed,
        one_cart_each(start.committed),
        forall|item: (Id, Id)| #[trigger]
            start.committed.cart_items.contains(item) ==> start.committed.carts.contains_key(
                item.0,
            ),
    ensures
        end.committed == between.committed,
{
    law_carts_merged(user_id, session, start, first, between, fuel);
    law_carts_merged(user_id, session, again, second, end, fuel);
    if merged(between.committed, end.committed, user_id, session) {
        law_second_merge_changes_nothing(
            start.committed,
            between.committed,
            end.committed,
            user_id,
            session,
        );
    }
}

/// Unless a command fails, who asks for a product that is not there is told that it is not found, and
/// who asks for one that is not for sale is told so.
pub proof fn law_item_is_refused(
    user_id: Id,
    product_id: Id,
    start: World,
    outcome: Outcome,
    end: World,
    fuel: nat,
)
    requires
        runs(
            Step::Perform(ChangeCart::AddOpening { user_id, product_id }, Command::Begin),
            start,
            outcome,
            end,
            fuel,
        ),
        at_rest(start),
        !end.failed,
        outcome is Err,
    ensures
        outcome->Err_0@ == if start.committed.products.contains_key(product_id) {
            Fault::UnprocessableEntity("Produkt jest niedostępny."@)
        } else {
            Fault::NotFound
        },
{
    let s0 = Step::Perform(ChangeCart::AddOpening { user_id, product_id }, Command::Begin);
    law_user_item_added(user_id, product_id, start, outcome, end, fuel);
    let (r1, w1, s1) = lemma_goes_on(s0, start, outcome, end, fuel);
    let (r2, w2, s2) = lemma_goes_on(s1, w1, outcome, end, (fuel - 1) as nat);
    let (r3, w3, s3) = lemma_goes_on(s2, w2, outcome, end, (fuel - 2) as nat);
    if s2->Perform_0 is AddMakingCart {
        let (r4, w4, s4) = lemma_goes_on(s3, w3, outcome, end, (fuel - 3) as nat);
    }
}

/// Unless a command fails, who has no cart and takes a product out of it is told that it is not found.
pub proof fn law_removal_is_refused(
    owner: CartOwner,
    product_id: Id,
    start: World,
    outcome: Outcome,
    end: World,
    fuel: nat,
)
    requires
        runs(
            Step::Perform(ChangeCart::RemoveOpening { owner, product_id }, Command::Begin),
            start,
            outcome,
            end,
            fuel,
        ),
        at_rest(start),
        !end.failed,
        outcome is Err,
    ensures
        outcome->Err_0@ == Fault::NotFound,
{
    let s0 = Step::Perform(ChangeCart::RemoveOpening { owner, product_id }, Command::Begin);
    law_item_removed(owner, product_id, start, outcome, end, fuel);
    let (r1, w1, s1) = lemma_goes_on(s0, start, outcome, end, fuel);
    let (r2, w2, s2) = lemma_goes_on(s1, w1, outcome, end, (fuel - 1) as nat);
    if s2 is Perform {
        assert(start.committed.carts.contains_key((r2->Cart_0->0).id));
    }
}

/// Unless a command fails, an owner's cart is shown; where there is none, a user is told that it is not
/// found, and a guest is shown an empty one.
pub proof fn law_cart_shown(
    owner: CartOwner,
    start: World,
    outcome: Outcome,
    end: World,
    fuel: nat,
)
    requires
        runs(
            Step::Perform(ShowCart::Acquiring { owner }, Command::Acquire),
            start,
            outcome,
            end,
            fuel,
        ),
        at_rest(start),
        !end.failed,
    ensures
        owns_cart(start.committed, owner) ==> own_cart_was_shown(
            start.services,
            outcome,
            end,
            owner,
            CartForm::Plain,
        ),
        !owns_cart(start.committed, owner) && owner is User ==> (outcome matches Err(error)
            && error@ is NotFound),
        !owns_cart(start.committed, owner) && owner is Guest ==> seen(outcome) == Ok::<
            Answer,
            Fault,
        >(Answer { status: 200, headers: Map::empty(), body: Content::EmptyCart }),
{
    let s0 = Step::Perform(ShowCart::Acquiring { owner }, Command::Acquire);
    let (r1, w1, s1) = lemma_goes_on(s0, start, outcome, end, fuel);
    let (r2, w2, s2) = lemma_goes_on(s1, w1, outcome, end, (fuel - 1) as nat);
    if s2 is Perform {
        let cart = r2->Cart_0->0;
        let (r3, w3, s3) = lemma_goes_on(s2, w2, outcome, end, (fuel - 2) as nat);
        assert(s3 !is Perform);
        assert(start.committed.carts.contains_key(cart.id));
        assert(end.services == start.services.push(described(cart.id, r3->CartDetails_0)));
        assert(cart_was_shown(start.services, outcome, end, cart.id, CartForm::Plain));
    }
}

/// Showing a cart changes nothing.
pub proof fn law_showing_changes_nothing(
    owner: CartOwner,
    start: World,
    outcome: Outcome,
    end: World,
    fuel: nat,
)
    requires
        runs(
            Step::Perform(ShowCart::Acquiring { owner }, Command::Acquire),
            start,
            outcome,
            end,
            fuel,
        ),
        at_rest(start),
    ensures
        end.committed == start.committed,
{
    let s0 = Step::Perform(ShowCart::Acquiring { owner }, Command::Acquire);
    let (r1, w1, s1) = lemma_goes_on(s0, start, outcome, end, fuel);
    if s1 is Perform {
        let (r2, w2, s2) = lemma_goes_on(s1, w1, outcome, end, (fuel - 1) as nat);
        if s2 is Perform {
            let (r3, w3, s3) = lemma_goes_on(s2, w2, outcome, end, (fuel - 2) as nat);
            assert(s3 !is Perform);
        }
    }
}

} // verus!
