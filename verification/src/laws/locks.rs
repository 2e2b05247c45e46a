//! Which rows a request locks before it changes what depends on them.
use crate::handlers::carts::{ChangeCart, ShowCart};
use crate::handlers::create_order::{Checkout, CreateOrder};
use crate::handlers::orders::GetOrder;
use crate::handlers::products::DeleteProduct;
use crate::handlers::update_product::UpdateProduct;
use crate::ids::Id;
use crate::models::{CartItem, Order, OrderItem, ShoppingCart};
use crate::protocol::{CartOwner, Command, Query, Reply, Stage, Step};
use vstd::prelude::*;

verus! {

/// Whether a step looks for an owner's cart, and locks it or not.
pub open spec fn looks_for_cart<S>(step: Step<S>, owner: CartOwner, lock: bool) -> bool {
    step matches Step::Perform(_, Command::Query(Query::SelectCart { owner: asked, lock: locked }))
        && asked == owner && locked == lock
}

/// Whether a step locks a product.
pub open spec fn locks<S>(step: Step<S>, id: Id) -> bool {
    step matches Step::Perform(_, Command::Query(Query::LockProduct { id: asked })) && asked == id
}

/// Who places an order has the cart locked, and then all of its products.
pub proof fn law_order_locks(
    checkout: Checkout,
    cart: ShoppingCart,
    items: Vec<CartItem>,
    first: Step<CreateOrder>,
    second: Step<CreateOrder>,
)
    requires
        CreateOrder::Opening(checkout).follows(Reply::Done, first),
        (CreateOrder::LoadingItems { checkout, cart }).follows(Reply::CartItems(items), second),
        items@.len() > 0,
        checkout.payload.shipping_method_key@ == "inpost"@
            || checkout.payload.shipping_method_key@ == "poczta"@,
    ensures
        looks_for_cart(first, checkout.owner, true),
        second matches Step::Perform(_, Command::Query(Query::SelectProducts { ids, lock })) && lock
            && ids@.len() == items@.len() && forall|i: int|
            0 <= i < items@.len() ==> #[trigger] ids@[i] == items@[i].product_id,
{
}

/// Who puts a product into a cart has the cart and the product locked; who takes one out, the cart of
/// a user. A guest's cart, a merge and a look at a cart lock nothing.
pub proof fn law_cart_locks(
    user_id: Id,
    session: Id,
    product_id: Id,
    owner: CartOwner,
    cart: ShoppingCart,
    adding: Step<ChangeCart>,
    checking: Step<ChangeCart>,
    guest: Step<ChangeCart>,
    removing: Step<ChangeCart>,
    merging: Step<ChangeCart>,
    showing: Step<ShowCart>,
)
    requires
        (ChangeCart::AddOpening { user_id, product_id }).follows(Reply::Done, adding),
        (ChangeCart::AddFindingCart { user_id, product_id }).follows(
            Reply::Cart(Some(cart)),
            checking,
        ),
        (ChangeCart::GuestOpening { session, known: true, product_id }).follows(Reply::Done, guest),
        (ChangeCart::RemoveOpening { owner, product_id }).follows(Reply::Done, removing),
        (ChangeCart::MergeOpening { user_id, session }).follows(Reply::Done, merging),
        (ShowCart::Acquiring { owner }).follows(Reply::Done, showing),
    ensures
        looks_for_cart(adding, CartOwner::User(user_id), true),
        locks(checking, product_id),
        looks_for_cart(guest, CartOwner::Guest(session), false),
        looks_for_cart(removing, owner, owner is User),
        looks_for_cart(merging, CartOwner::User(user_id), false),
        looks_for_cart(showing, owner, false),
{
}

/// Who changes or deletes a product has it locked; who looks at an order locks nothing.
pub proof fn law_product_locks(
    id: Id,
    order: Order,
    items: Vec<OrderItem>,
    changing: Step<UpdateProduct>,
    deleting: Step<DeleteProduct>,
    showing: Step<GetOrder>,
)
    requires
        (UpdateProduct::Opening { id }).follows(Reply::Done, changing),
        (DeleteProduct::SearchingOrders { id }).follows(Reply::Found(false), deleting),
        (GetOrder::LoadingItems { order }).follows(Reply::OrderItems(items), showing),
        items@.len() > 0,
    ensures
        locks(changing, id),
        locks(deleting, id),
        showing matches Step::Perform(_, Command::Query(Query::SelectProducts { ids, lock }))
            && !lock,
{
}

} // verus!
