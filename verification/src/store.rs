//! What the tables hold, what each query does to them and says of them, and how a request runs
//! against them on its own. All of it is mathematics: nothing here is compiled.
use crate::handlers::create_product::Picture;
use crate::ids::Id;
use crate::models::{
    CartDetailsResponse, CartItem, Order, OrderItem, OrderWithCustomerInfo, Product, ProductShown, ProductStatus, Role, ShoppingCart, User,
};
use crate::protocol::{
    CartOwner, Command, FormField, ImageUpload, LabelKind, OrderRow, Outcome, ProductRow, Query, Reply,
    ShippingRow, Stage, Step,
};
use crate::sql::SqlQuery;
use vstd::multiset::Multiset;
use vstd::prelude::*;

verus! {

/// Whose a cart is.
pub struct CartFacts {
    pub user_id: Option<Id>,
    pub guest_session_id: Option<Id>,
}

/// One product of an order, with the price that was paid.
pub struct OrderedItem {
    pub order_id: Id,
    pub product_id: Id,
    pub price: i64,
}

/// Who a user is, and how they log in.
pub struct UserFacts {
    pub email: String,
    pub password_hash: String,
    pub role: Role,
}

/// The tables.
#[verifier::ext_equal]
pub struct Store {
    pub products: Map<Id, ProductShown>,
    pub carts: Map<Id, CartFacts>,
    /// Pairs of a cart and a product in it.
    pub cart_items: Set<(Id, Id)>,
    pub orders: Map<Id, OrderRow>,
    pub order_items: Multiset<OrderedItem>,
    pub users: Map<Id, UserFacts>,
    /// The address of each user who has one.
    pub shipping: Map<Id, ShippingRow>,
}

/// One field of a form, and what it gives when it is read as bytes or as text.
pub struct Part {
    pub name: Option<String>,
    pub file_name: Option<String>,
    pub bytes: Seq<u8>,
    pub text: String,
}

/// What labels and statuses are read as, and the ids of the images at addresses; nothing for one that
/// cannot be read.
pub struct Reading {
    pub labels: spec_fn(LabelKind, Seq<char>) -> Option<String>,
    pub statuses: spec_fn(Seq<char>) -> Option<ProductStatus>,
    pub image_ids: spec_fn(Seq<char>) -> Option<String>,
}

/// Something that a service did for a request, or a query that was put together for it.
pub enum Service {
    Hashed { password: Seq<char>, hash: String },
    Checked { password_hash: Seq<char>, password: Seq<char>, valid: bool },
    Signed { user_id: Id, role: Role, token: String },
    Uploaded { pictures: Seq<Picture> },
    Deleted { images: Seq<String> },
    Described { cart_id: Id, details: CartDetailsResponse },
    Counted { query: SqlQuery, total: i64 },
    ListedProducts { query: SqlQuery, products: Vec<Product> },
    ListedOrders { query: SqlQuery, orders: Vec<OrderWithCustomerInfo> },
}

/// What came of the commit of a request's transaction.
pub enum Closing {
    Untried,
    Failed,
    Done,
}

/// What a request has to do with: the tables as everyone sees them and as its open transaction sees
/// them, the rest of its form and the field it is at, how labels are read, the addresses of all
/// images that were stored, what services did, whether a command failed, and what came of its
/// commit.
#[verifier::ext_equal]
pub struct World {
    pub committed: Store,
    pub open: Option<Store>,
    pub form: Seq<Part>,
    pub current: Option<Part>,
    pub reading: Reading,
    pub uploaded: Seq<String>,
    pub services: Seq<Service>,
    pub failed: bool,
    pub closing: Closing,
}

/// Whether a request may start: no transaction is open, and nothing has failed.
pub open spec fn at_rest(world: World) -> bool {
    world.open is None && !world.failed && world.closing is Untried
}

/// Whether the tables are as they were unless the commit was tried, are changed once it is done, and
/// are one of the two where it failed.
pub open spec fn settled(before: Store, end: World, changed: bool) -> bool {
    match end.closing {
        Closing::Untried => end.committed == before,
        Closing::Failed => end.committed == before || changed,
        Closing::Done => changed,
    }
}

/// Whose a cart is, by its row.
pub open spec fn cart_facts(cart: ShoppingCart) -> CartFacts {
    CartFacts { user_id: cart.user_id, guest_session_id: cart.guest_session_id }
}

/// Who a user is and how they log in, by their row.
pub open spec fn user_facts(user: User) -> UserFacts {
    UserFacts { email: user.email, password_hash: user.password_hash, role: user.role }
}

/// The row that a product is stored as.
pub open spec fn stored(product: ProductRow, created_at: i64, updated_at: i64) -> ProductShown {
    ProductShown {
        id: product.id,
        name: product.name,
        description: product.description,
        price: product.price,
        gender: product.gender,
        condition: product.condition,
        category: product.category,
        status: product.status,
        images: product.images@,
        on_sale: product.on_sale,
        created_at,
        updated_at,
    }
}

/// What a row of an order's items tells.
pub open spec fn ordered_item(item: OrderItem) -> OrderedItem {
    OrderedItem {
        order_id: item.order_id,
        product_id: item.product_id,
        price: item.price_at_purchase,
    }
}

/// Whether an order is read as it is stored.
pub open spec fn shows_order(row: OrderRow, order: Order) -> bool {
    &&& order.id == row.id
    &&& order.user_id == row.user_id
    &&& order.guest_email == row.guest_email
    &&& order.guest_session_id == row.guest_session_id
    &&& order.status == row.status
    &&& order.total_price == row.total_price
    &&& order.shipping_first_name == row.shipping_first_name
    &&& order.shipping_last_name == row.shipping_last_name
    &&& order.shipping_address_line1 == row.shipping_address_line1
    &&& order.shipping_address_line2 == row.shipping_address_line2
    &&& order.shipping_city == row.shipping_city
    &&& order.shipping_postal_code == row.shipping_postal_code
    &&& order.shipping_country == row.shipping_country
    &&& order.shipping_phone == row.shipping_phone
    &&& order.payment_method == Some(row.payment_method)
    &&& order.shipping_method_name is Some
    &&& order.shipping_method_name->0@ == row.shipping_method_name@
}

/// Whether a cart is this owner's.
pub open spec fn owned(owner: CartOwner, cart: CartFacts) -> bool {
    match owner {
        CartOwner::User(id) => cart.user_id == Some(id),
        CartOwner::Guest(id) => cart.guest_session_id == Some(id),
    }
}

/// A new cart of this owner.
pub open spec fn new_cart(owner: CartOwner) -> CartFacts {
    match owner {
        CartOwner::User(id) => CartFacts { user_id: Some(id), guest_session_id: None },
        CartOwner::Guest(id) => CartFacts { user_id: None, guest_session_id: Some(id) },
    }
}

/// The products with another status for those that are named.
pub open spec fn with_statuses(
    products: Map<Id, ProductShown>,
    ids: Set<Id>,
    status: ProductStatus,
) -> Map<Id, ProductShown> {
    Map::new(
        |id: Id| products.contains_key(id),
        |id: Id|
            if ids.contains(id) {
                ProductShown { status, ..products[id] }
            } else {
                products[id]
            },
    )
}

/// The items without those of one cart.
pub open spec fn without_cart(items: Set<(Id, Id)>, cart_id: Id) -> Set<(Id, Id)> {
    items.filter(|item: (Id, Id)| item.0 != cart_id)
}

/// The items after those of one cart moved to another, as far as that did not have them.
pub open spec fn moved(items: Set<(Id, Id)>, to: Id, from: Id) -> Set<(Id, Id)> {
    Set::new(
        |item: (Id, Id)|
            if item.0 == to {
                items.contains(item) || items.contains((from, item.1))
            } else if item.0 == from {
                items.contains(item) && items.contains((to, item.1))
            } else {
                items.contains(item)
            },
    )
}

/// The ordered items without those of one order.
pub open spec fn without_order(items: Multiset<OrderedItem>, order_id: Id) -> Multiset<
    OrderedItem,
> {
    items.filter(|item: OrderedItem| item.order_id != order_id)
}

/// Whether a product is part of some order.
pub open spec fn in_some_order(items: Multiset<OrderedItem>, product_id: Id) -> bool {
    exists|item: OrderedItem| #[trigger] items.contains(item) && item.product_id == product_id
}

/// Whether a product is part of this order.
pub open spec fn in_order(items: Multiset<OrderedItem>, order_id: Id, product_id: Id) -> bool {
    exists|item: OrderedItem| #[trigger]
        items.contains(item) && item.product_id == product_id && item.order_id == order_id
}

/// Whether `reply` says truly what a product's row holds.
pub open spec fn tells_product(store: Store, id: Id, reply: Reply) -> bool {
    match reply {
        Reply::Product(None) => !store.products.contains_key(id),
        Reply::Product(Some(product)) => {
            &&& store.products.contains_key(id)
            &&& product.id == id
            &&& product@ == store.products[id]
        },
        _ => false,
    }
}

/// Whether `products` are the rows of those among `ids` that exist.
pub open spec fn tells_products(store: Store, ids: Seq<Id>, products: Seq<Product>) -> bool {
    &&& forall|i: int|
        0 <= i < products.len() ==> {
            let product = #[trigger] products[i];
            &&& ids.contains(product.id)
            &&& store.products.contains_key(product.id)
            &&& product@ == store.products[product.id]
        }
    &&& forall|k: int|
        0 <= k < ids.len() && store.products.contains_key(#[trigger] ids[k]) ==> exists|i: int|
            0 <= i < products.len() && (#[trigger] products[i]).id == ids[k]
}

/// Whether `items` are the rows of what a cart holds.
pub open spec fn tells_items(store: Store, cart_id: Id, items: Seq<CartItem>) -> bool {
    &&& items.no_duplicates()
    &&& forall|i: int| 0 <= i < items.len() ==> (#[trigger] items[i]).cart_id == cart_id
    &&& forall|product_id: Id| #[trigger]
        store.cart_items.contains((cart_id, product_id)) <==> in_items(items, product_id)
}

/// Whether a product is among the items.
pub open spec fn in_items(items: Seq<CartItem>, product_id: Id) -> bool {
    exists|i: int| 0 <= i < items.len() && (#[trigger] items[i]).product_id == product_id
}

/// Whether a query can give this reply and leave these tables. Of other tables nothing is said.
pub open spec fn runs_query(store: Store, query: Query, reply: Reply, after: Store) -> bool {
    match query {
        Query::SelectProduct { id } => after == store && tells_product(store, id, reply),
        Query::LockProduct { id } => after == store && tells_product(store, id, reply),
        Query::SelectProducts { ids, .. } => {
            &&& after == store
            &&& reply matches Reply::Products(products)
            &&& tells_products(store, ids@, products@)
        },
        Query::InsertProduct { product } => {
            &&& reply matches Reply::Product(Some(row))
            &&& !store.products.contains_key(product.id)
            &&& row@ == stored(product, row.created_at, row.updated_at)
            &&& after == Store { products: store.products.insert(product.id, row@), ..store }
        },
        Query::UpdateProduct { product } => {
            &&& reply matches Reply::Product(found)
            &&& found is Some == store.products.contains_key(product.id)
            &&& match found {
                Some(row) => {
                    &&& row@ == stored(
                        product,
                        store.products[product.id].created_at,
                        row.updated_at,
                    )
                    &&& after == Store {
                        products: store.products.insert(product.id, row@),
                        ..store
                    }
                },
                None => after == store,
            }
        },
        Query::SetProductStatus { id, status } => {
            &&& reply is Affected
            &&& after == if store.products.contains_key(id) {
                Store {
                    products: store.products.insert(
                        id,
                        ProductShown {
                            status,
                            updated_at: after.products[id].updated_at,
                            ..store.products[id]
                        },
                    ),
                    ..store
                }
            } else {
                store
            }
        },
        Query::SetStatuses { ids, status } => {
            &&& reply is Affected
            &&& after == Store {
                products: with_statuses(store.products, ids@.to_set(), status),
                ..store
            }
        },
        Query::FindProductInOrders { id } => {
            &&& after == store
            &&& reply == Reply::Found(in_some_order(store.order_items, id))
        },
        Query::DeleteProduct { id } => {
            &&& reply is Affected
            &&& after == Store {
                products: store.products.remove(id),
                cart_items: after.cart_items,
                ..store
            }
            &&& forall|item: (Id, Id)|
                item.1 != id ==> (after.cart_items.contains(item) == #[trigger]
                    store.cart_items.contains(item))
        },
        Query::SelectCart { owner, .. } => {
            &&& after == store
            &&& reply matches Reply::Cart(found)
            &&& match found {
                Some(cart) => {
                    &&& store.carts.contains_key(cart.id)
                    &&& store.carts[cart.id] == cart_facts(cart)
                    &&& owned(owner, cart_facts(cart))
                },
                None => forall|id: Id| #[trigger]
                    store.carts.contains_key(id) ==> !owned(owner, store.carts[id]),
            }
        },
        Query::SelectCartById { id } => {
            &&& after == store
            &&& reply matches Reply::Cart(found)
            &&& match found {
                Some(cart) => cart.id == id && store.carts.contains_key(id) && store.carts[id]
                    == cart_facts(cart),
                None => !store.carts.contains_key(id),
            }
        },
        Query::InsertCart { owner } => {
            &&& reply matches Reply::Cart(Some(cart))
            &&& !store.carts.contains_key(cart.id)
            &&& cart_facts(cart) == new_cart(owner)
            &&& after == Store {
                carts: store.carts.insert(cart.id, cart_facts(cart)),
                ..store
            }
        },
        Query::SelectCartItems { cart_id } => {
            &&& after == store
            &&& reply matches Reply::CartItems(items)
            &&& tells_items(store, cart_id, items@)
        },
        Query::InsertCartItem { cart_id, product_id } => {
            &&& reply is Affected
            &&& after == Store {
                cart_items: store.cart_items.insert((cart_id, product_id)),
                ..store
            }
        },
        Query::DeleteCartItem { cart_id, product_id } => {
            &&& reply is Affected
            &&& after == Store {
                cart_items: store.cart_items.remove((cart_id, product_id)),
                ..store
            }
        },
        Query::DeleteCartItems { cart_id } => {
            &&& reply is Affected
            &&& after == Store { cart_items: without_cart(store.cart_items, cart_id), ..store }
        },
        Query::MoveCartItems { to, from } => {
            &&& reply is Affected
            &&& after == Store { cart_items: moved(store.cart_items, to, from), ..store }
        },
        Query::DetachGuest { cart_id, user_id } => {
            &&& reply is Affected
            &&& after == if store.carts.contains_key(cart_id) && store.carts[cart_id].user_id
                == Some(user_id) {
                Store {
                    carts: store.carts.insert(
                        cart_id,
                        CartFacts { guest_session_id: None, ..store.carts[cart_id] },
                    ),
                    ..store
                }
            } else {
                store
            }
        },
        // The items of a cart go with it.
        Query::DeleteCart { id } => {
            &&& reply is Affected
            &&& after == Store {
                carts: store.carts.remove(id),
                cart_items: without_cart(store.cart_items, id),
                ..store
            }
        },
        Query::InsertOrder { order } => {
            &&& reply is Affected
            &&& !store.orders.contains_key(order.id)
            &&& after == Store {
                orders: store.orders.insert(order.id, order),
                ..store
            }
        },
        Query::InsertOrderItem { order_id, product_id, price } => {
            &&& reply is Affected
            &&& after == Store {
                order_items: store.order_items.insert(OrderedItem { order_id, product_id, price }),
                ..store
            }
        },
        Query::SelectOrder { id } => {
            &&& after == store
            &&& reply matches Reply::Order(found)
            &&& found is Some == store.orders.contains_key(id)
            &&& found is Some ==> shows_order(store.orders[id], found->0)
        },
        Query::SelectOrderItems { order_id } => {
            &&& after == store
            &&& reply matches Reply::OrderItems(items)
            &&& items@.map_values(|item: OrderItem| ordered_item(item)).to_multiset()
                == store.order_items.filter(|item: OrderedItem| item.order_id == order_id)
        },
        Query::SelectOrderProducts { order_id } => {
            &&& after == store
            &&& reply matches Reply::Ids(ids)
            &&& forall|id: Id| #[trigger]
                ids@.contains(id) == in_order(store.order_items, order_id, id)
        },
        Query::UpdateOrderStatus { id, order_status } => {
            &&& reply matches Reply::Order(found)
            &&& found is Some == store.orders.contains_key(id)
            &&& found is Some ==> shows_order(after.orders[id], found->0)
            &&& after == if found is Some {
                Store {
                    orders: store.orders.insert(
                        id,
                        OrderRow { status: order_status, ..store.orders[id] },
                    ),
                    ..store
                }
            } else {
                store
            }
        },
        Query::DeleteOrderItems { order_id } => {
            &&& reply is Affected
            &&& after == Store { order_items: without_order(store.order_items, order_id), ..store }
        },
        Query::DeleteOrder { id } => {
            &&& reply is Affected
            &&& after == Store { orders: store.orders.remove(id), ..store }
        },
        Query::SelectUser { email } => {
            &&& after == store
            &&& reply matches Reply::User(found)
            &&& match found {
                Some(user) => {
                    &&& store.users.contains_key(user.id)
                    &&& store.users[user.id] == user_facts(user)
                    &&& user.email@ == email@
                },
                None => !registered_email(store, email@),
            }
        },
        Query::InsertUser { email, password_hash, role } => {
            &&& reply matches Reply::User(Some(user))
            &&& !store.users.contains_key(user.id)
            &&& user_facts(user) == UserFacts { email, password_hash, role }
            &&& after == Store { users: store.users.insert(user.id, user_facts(user)), ..store }
        },
        Query::UpsertShipping { shipping } => {
            &&& reply == Reply::Found(true)
            &&& after == Store {
                shipping: store.shipping.insert(shipping.user_id, shipping),
                ..store
            }
        },
    }
}

/// Whether some user has this email address.
pub open spec fn registered_email(store: Store, email: Seq<char>) -> bool {
    exists|id: Id| #[trigger] store.users.contains_key(id) && store.users[id].email@ == email
}

/// Whether a command can give this reply and leave the world like this. What fails changes
/// nothing, but for a commit, of which it is then not known whether it took effect. One address
/// comes back for each image that is stored.
pub open spec fn performs(world: World, command: Command, reply: Reply, after: World) -> bool {
    match (command, reply) {
        (Command::Commit, Reply::Failed(_)) => {
            &&& after == World {
                committed: after.committed,
                open: None,
                failed: true,
                closing: Closing::Failed,
                ..world
            }
            &&& after.committed == world.committed || world.open == Some(after.committed)
        },
        (_, Reply::Failed(_)) => after == World { failed: true, ..world },
        (Command::Begin, _) => after == World { open: Some(world.committed), ..world },
        (Command::Commit, _) => {
            &&& world.open is Some
            &&& after == World {
                committed: world.open->0,
                open: None,
                closing: Closing::Done,
                ..world
            }
        },
        (Command::Rollback, _) => after == World { open: None, ..world },
        (Command::Query(query), _) => match world.open {
            Some(store) => {
                &&& after == World { open: Some(after.open->0), ..world }
                &&& runs_query(store, query, reply, after.open->0)
            },
            None => {
                &&& after == World { committed: after.committed, ..world }
                &&& runs_query(world.committed, query, reply, after.committed)
            },
        },
        (Command::NextField, _) => if world.form.len() == 0 {
            &&& reply == Reply::Field(None)
            &&& after == World { current: None, ..world }
        } else {
            &&& reply == Reply::Field(
                Some(
                    FormField {
                        name: world.form[0].name,
                        file_name: world.form[0].file_name,
                    },
                ),
            )
            &&& after == World {
                form: world.form.skip(1),
                current: Some(world.form[0]),
                ..world
            }
        },
        (Command::ReadBytes, _) => {
            &&& after == world
            &&& world.current is Some
            &&& reply matches Reply::Bytes(bytes)
            &&& bytes@ == world.current->0.bytes
        },
        (Command::ReadText, _) => {
            &&& after == world
            &&& world.current is Some
            &&& reply == Reply::Text(world.current->0.text)
        },
        (Command::ReadLabel { kind, text }, _) => {
            &&& after == world
            &&& match (world.reading.labels)(kind, text@) {
                Some(label) => reply == Reply::Label(label),
                None => reply is Unreadable,
            }
        },
        (Command::ReadStatus { text }, _) => {
            &&& after == world
            &&& match (world.reading.statuses)(text@) {
                Some(status) => reply == Reply::Status(status),
                None => reply is Unreadable,
            }
        },
        (Command::UploadImages { images }, _) => {
            &&& reply matches Reply::Urls(urls)
            &&& urls@.len() == images@.len()
            &&& after == World {
                uploaded: world.uploaded + urls@,
                services: world.services.push(
                    Service::Uploaded {
                        pictures: images@.map_values(|image: ImageUpload| image@),
                    },
                ),
                ..world
            }
        },
        (Command::FindImages { urls }, _) => {
            &&& after == world
            &&& reply matches Reply::Images(ids)
            &&& ids@ == urls@.map_values(|url: String| (world.reading.image_ids)(url@))
        },
        (Command::DeleteImages { ids }, _) => after == served(
            world,
            Service::Deleted { images: ids@ },
        ),
        (Command::HashPassword { password }, _) => {
            &&& reply matches Reply::Text(hash)
            &&& after == served(world, Service::Hashed { password: password@, hash })
        },
        (Command::VerifyPassword { password_hash, password }, _) => {
            &&& reply matches Reply::Verified(valid)
            &&& after == served(
                world,
                Service::Checked {
                    password_hash: password_hash@,
                    password: password@,
                    valid,
                },
            )
        },
        (Command::CreateToken { user_id, role }, _) => {
            &&& reply matches Reply::Text(token)
            &&& after == served(world, Service::Signed { user_id, role, token })
        },
        (Command::DescribeCart { cart }, _) => {
            &&& reply matches Reply::CartDetails(details)
            &&& after == served(world, Service::Described { cart_id: cart.id, details })
        },
        (Command::Count(query), _) => {
            &&& reply matches Reply::Count(total)
            &&& after == served(world, Service::Counted { query, total })
        },
        (Command::ListProducts(query), _) => {
            &&& reply matches Reply::Products(products)
            &&& after == served(world, Service::ListedProducts { query, products })
        },
        (Command::ListOrders(query), _) => {
            &&& reply matches Reply::Orders(orders)
            &&& after == served(world, Service::ListedOrders { query, orders })
        },
        _ => after == world,
    }
}

/// The world after a service did something.
pub open spec fn served(world: World, service: Service) -> World {
    World { services: world.services.push(service), ..world }
}

/// Whether a request that is at this step can end in this way, and leave the world like this, in at
/// most `fuel` commands. A transaction that is open at the end leaves nothing.
pub open spec fn runs<S: Stage>(
    step: Step<S>,
    world: World,
    outcome: Outcome,
    end: World,
    fuel: nat,
) -> bool
    decreases fuel,
{
    match step {
        Step::Finish(given) => given == outcome && end == World { open: None, ..world },
        Step::Unexpected => false,
        Step::Perform(stage, command) => fuel > 0 && exists|reply: Reply, after: World, next: Step<S>|
            #[trigger] goes_on(stage, world, command, reply, after, next) && runs(
                next,
                after,
                outcome,
                end,
                (fuel - 1) as nat,
            ),
    }
}

/// Whether performing the command can lead to the next step.
pub open spec fn goes_on<S: Stage>(
    stage: S,
    world: World,
    command: Command,
    reply: Reply,
    after: World,
    next: Step<S>,
) -> bool {
    performs(world, command, reply, after) && stage.admits(reply) && stage.follows(reply, next)
}

/// What came of the command that a request is at.
pub proof fn lemma_goes_on<S: Stage>(
    step: Step<S>,
    world: World,
    outcome: Outcome,
    end: World,
    fuel: nat,
) -> (found: (Reply, World, Step<S>))
    requires
        runs(step, world, outcome, end, fuel),
        step is Perform,
    ensures
        fuel > 0,
        step matches Step::Perform(stage, command) && goes_on(
            stage,
            world,
            command,
            found.0,
            found.1,
            found.2,
        ),
        runs(found.2, found.1, outcome, end, (fuel - 1) as nat),
{
    match step {
        Step::Perform(stage, command) => {
            let (reply, after, next) = choose|reply: Reply, after: World, next: Step<S>|
                #[trigger]
                goes_on(stage, world, command, reply, after, next) && runs(
                    next,
                    after,
                    outcome,
                    end,
                    (fuel - 1) as nat,
                );
            (reply, after, next)
        },
        _ => (arbitrary(), arbitrary(), arbitrary()),
    }
}

} // verus!
