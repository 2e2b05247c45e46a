//! Showing orders, changing their status and deleting them.
use crate::handlers::lookup::{product_of, ProductIndex};
use crate::headers::no_headers;
use crate::ids::Id;
use crate::json::{flag_value, Json};
use crate::messages::{
    add_trigger, bare_headers, message_value, object2, shown, toast, toast_json, two_members,
    with_trigger,
};
use crate::models::{
    Order, OrderDetailsResponse, OrderItem, OrderItemDetailsPublic, OrderItemShown, Product,
    ProductStatus, Role, TokenClaims, UpdateOrderStatusPayload,
};
use crate::protocol::{
    answer, ends, refuse, Answer, AppError, Body, Command, Content, Fault, Query, Reply, Stage, Step,
};
use vstd::prelude::*;

verus! {

/// How far showing an order has come.
pub enum GetOrder {
    Finding { claims: TokenClaims, order_id: Id },
    LoadingItems { order: Order },
    LoadingProducts { order: Order, items: Vec<OrderItem> },
}

/// Whether an order may be shown: to an administrator, and to the user who placed it.
pub open spec fn may_see(claims: TokenClaims, order: Order) -> bool {
    claims.role == Role::Admin || order.user_id == Some(claims.sub)
}

/// What is shown of the items of an order; one whose product is gone is passed over.
pub open spec fn items_shown(items: Seq<OrderItem>, products: Seq<Product>) -> Seq<OrderItemShown>
    decreases items.len(),
{
    if items.len() == 0 {
        Seq::empty()
    } else {
        let before = items_shown(items.drop_last(), products);
        match product_of(products, items.last().product_id) {
            Some(product) => before.push(
                OrderItemShown {
                    order_item_id: items.last().id,
                    product: product@,
                    price_at_purchase: items.last().price_at_purchase,
                },
            ),
            None => before,
        }
    }
}

/// The ids of the products of an order.
pub open spec fn ordered_products(items: Seq<OrderItem>) -> Seq<Id> {
    items.map_values(|item: OrderItem| item.product_id)
}

/// The answer that shows an order.
pub open spec fn order_answer(order: Order, items: Seq<OrderItemShown>) -> Result<Answer, Fault> {
    Ok(
        Answer {
            status: 200,
            headers: no_headers(),
            body: Content::OrderDetails { order, items },
        },
    )
}

/// Begins to show an order.
pub fn get_order_details_handler(claims: TokenClaims, order_id: Id) -> (step: Step<GetOrder>)
    ensures
        step == Step::Perform(
            GetOrder::Finding { claims, order_id },
            Command::Query(Query::SelectOrder { id: order_id }),
        ),
{
    Step::Perform(
        GetOrder::Finding { claims, order_id },
        Command::Query(Query::SelectOrder { id: order_id }),
    )
}

fn describe_items(items: &Vec<OrderItem>, products: &Vec<Product>) -> (details: Vec<
    OrderItemDetailsPublic,
>)
    ensures
        details@.map_values(|item: OrderItemDetailsPublic| item@) == items_shown(
            items@,
            products@,
        ),
{
    let index = ProductIndex::new(products);
    let mut details: Vec<OrderItemDetailsPublic> = Vec::new();
    assert(details@.map_values(|item: OrderItemDetailsPublic| item@) =~= Seq::empty());
    for i in 0..items.len()
        invariant
            index.indexes(products@),
            details@.map_values(|item: OrderItemDetailsPublic| item@) == items_shown(
                items@.take(i as int),
                products@,
            ),
    {
        let ghost before = details@.map_values(|item: OrderItemDetailsPublic| item@);
        assert(items@.take(i + 1).drop_last() =~= items@.take(i as int));
        if let Some(product) = index.find(products, items[i].product_id) {
            let one = OrderItemDetailsPublic {
                order_item_id: items[i].id,
                product: product.copy(),
                price_at_purchase: items[i].price_at_purchase,
            };
            let ghost seen_one = one@;
            details.push(one);
            assert(details@.map_values(|item: OrderItemDetailsPublic| item@) =~= before.push(
                seen_one,
            ));
        }
    }
    assert(items@.take(items.len() as int) =~= items@);
    details
}

fn collect_products(items: &Vec<OrderItem>) -> (ids: Vec<Id>)
    ensures
        ids@ == ordered_products(items@),
{
    let mut ids: Vec<Id> = Vec::new();
    for i in 0..items.len()
        invariant
            ids@ =~= ordered_products(items@).take(i as int),
    {
        ids.push(items[i].product_id);
    }
    ids
}

fn show_order(order: Order, items: Vec<OrderItemDetailsPublic>) -> (step: Step<GetOrder>)
    ensures
        ends(
            step,
            order_answer(order, items@.map_values(|item: OrderItemDetailsPublic| item@)),
        ),
{
    answer(200, bare_headers(), Body::OrderDetails(OrderDetailsResponse { order, items }))
}

impl Stage for GetOrder {
    open spec fn admits(self, reply: Reply) -> bool {
        true
    }

    open spec fn follows(self, reply: Reply, step: Step<GetOrder>) -> bool {
        match (self, reply) {
            (_, Reply::Failed(error)) => step == Step::<GetOrder>::Finish(Err(error)),
            (GetOrder::Finding { .. }, Reply::Order(None)) => ends(step, Err(Fault::NotFound)),
            (GetOrder::Finding { claims, order_id }, Reply::Order(Some(order))) => if may_see(
                claims,
                order,
            ) {
                step == Step::Perform(
                    GetOrder::LoadingItems { order },
                    Command::Query(Query::SelectOrderItems { order_id }),
                )
            } else {
                ends(
                    step,
                    Err(Fault::UnauthorizedAccess("Nie masz uprawnień do tego zamówienia"@)),
                )
            },
            (
                GetOrder::LoadingItems { order },
                Reply::OrderItems(items),
            ) => if items@.len() == 0 {
                ends(step, order_answer(order, Seq::empty()))
            } else {
                step matches Step::Perform(
                    stage,
                    Command::Query(Query::SelectProducts { ids, lock }),
                ) && stage == (GetOrder::LoadingProducts { order, items }) && ids@
                    == ordered_products(items@) && !lock
            },
            (GetOrder::LoadingProducts { order, items }, Reply::Products(products)) => ends(
                step,
                order_answer(order, items_shown(items@, products@)),
            ),
            _ => step is Unexpected,
        }
    }

    fn accepts(&self, reply: &Reply) -> (yes: bool) {
        true
    }

    fn resume(self, reply: Reply) -> (step: Step<GetOrder>) {
        match (self, reply) {
            (_, Reply::Failed(error)) => refuse(error),
            (GetOrder::Finding { .. }, Reply::Order(None)) => refuse(AppError::NotFound),
            (GetOrder::Finding { claims, order_id }, Reply::Order(Some(order))) => {
                let own = match order.user_id {
                    Some(user_id) => user_id == claims.sub,
                    None => false,
                };
                if claims.role != Role::Admin && !own {
                    return refuse(
                        AppError::UnauthorizedAccess(
                            "Nie masz uprawnień do tego zamówienia".to_owned(),
                        ),
                    );
                }
                Step::Perform(
                    GetOrder::LoadingItems { order },
                    Command::Query(Query::SelectOrderItems { order_id }),
                )
            },
            (GetOrder::LoadingItems { order }, Reply::OrderItems(items)) => {
                if items.len() == 0 {
                    let none: Vec<OrderItemDetailsPublic> = Vec::new();
                    assert(none@.map_values(|item: OrderItemDetailsPublic| item@) =~= Seq::empty());
                    show_order(order, none)
                } else {
                    let ids = collect_products(&items);
                    Step::Perform(
                        GetOrder::LoadingProducts { order, items },
                        Command::Query(Query::SelectProducts { ids, lock: false }),
                    )
                }
            },
            (GetOrder::LoadingProducts { order, items }, Reply::Products(products)) => {
                let details = describe_items(&items, &products);
                show_order(order, details)
            },
            _ => Step::Unexpected,
        }
    }
}

/// How far changing an order's status has come.
pub enum UpdateOrderStatus {
    Updating,
}

/// The events that tell of an order's new status.
pub open spec fn status_changed() -> Json {
    two_members(
        "reloadAdminOrderList"@,
        Json::Flag(true),
        "showMessage"@,
        shown("Status zamowienia zostal pomyslnie zaktualizowany."@, "success"@),
    )
}

/// Begins to change an order's status.
pub fn update_order_status_handler(
    claims: TokenClaims,
    order_id: Id,
    payload: UpdateOrderStatusPayload,
) -> (step: Step<UpdateOrderStatus>)
    ensures
        if claims.role != Role::Admin {
            ends(
                step,
                Err(
                    Fault::UnauthorizedAccess(
                        "Tylko administrator może zmieniać status zamówienia"@,
                    ),
                ),
            )
        } else {
            step == Step::Perform(
                UpdateOrderStatus::Updating,
                Command::Query(
                    Query::UpdateOrderStatus { id: order_id, order_status: payload.status },
                ),
            )
        },
{
    if claims.role != Role::Admin {
        return refuse(
            AppError::UnauthorizedAccess(
                "Tylko administrator może zmieniać status zamówienia".to_owned(),
            ),
        );
    }
    Step::Perform(
        UpdateOrderStatus::Updating,
        Command::Query(Query::UpdateOrderStatus { id: order_id, order_status: payload.status }),
    )
}

fn status_told(order: Order) -> (step: Step<UpdateOrderStatus>)
    ensures
        ends(
            step,
            Ok(
                (Answer {
                    status: 200,
                    headers: with_trigger(no_headers(), status_changed()),
                    body: Content::Order(order),
                }),
            ),
        ),
{
    proof {
        reveal_strlit("reloadAdminOrderList");
        reveal_strlit("showMessage");
    }
    let events = object2(
        "reloadAdminOrderList",
        flag_value(true),
        "showMessage",
        message_value("Status zamowienia zostal pomyslnie zaktualizowany.", "success"),
    );
    let mut headers = bare_headers();
    add_trigger(&mut headers, &events);
    answer(200, headers, Body::Order(order))
}

impl Stage for UpdateOrderStatus {
    open spec fn admits(self, reply: Reply) -> bool {
        true
    }

    open spec fn follows(self, reply: Reply, step: Step<UpdateOrderStatus>) -> bool {
        match reply {
            Reply::Failed(error) => step == Step::<UpdateOrderStatus>::Finish(Err(error)),
            Reply::Order(None) => ends(step, Err(Fault::NotFound)),
            Reply::Order(Some(order)) => ends(
                step,
                Ok(
                    Answer {
                        status: 200,
                        headers: with_trigger(no_headers(), status_changed()),
                        body: Content::Order(order),
                    },
                ),
            ),
            _ => step is Unexpected,
        }
    }

    fn accepts(&self, reply: &Reply) -> (yes: bool) {
        true
    }

    fn resume(self, reply: Reply) -> (step: Step<UpdateOrderStatus>) {
        match reply {
            Reply::Failed(error) => refuse(error),
            Reply::Order(None) => refuse(AppError::NotFound),
            Reply::Order(Some(order)) => status_told(order),
            _ => Step::Unexpected,
        }
    }
}

/// How far deleting an order has come.
pub enum DeleteOrder {
    Opening { order_id: Id },
    FindingProducts { order_id: Id },
    Releasing { order_id: Id },
    DeletingItems { order_id: Id },
    Deleting,
    Committing,
}

/// Begins to delete an order for good. Its products are for sale again.
pub fn permanent_delete_order_handler(claims: TokenClaims, order_id: Id) -> (step: Step<
    DeleteOrder,
>)
    ensures
        if claims.role != Role::Admin {
            ends(step, Err(Fault::UnauthorizedAccess("Brak uprawnień administratora."@)))
        } else {
            step == Step::Perform(DeleteOrder::Opening { order_id }, Command::Begin)
        },
{
    if claims.role != Role::Admin {
        return refuse(
            AppError::UnauthorizedAccess("Brak uprawnień administratora.".to_owned()),
        );
    }
    Step::Perform(DeleteOrder::Opening { order_id }, Command::Begin)
}

/// The step that deletes the items of an order.
pub open spec fn deletes_items(order_id: Id) -> Step<DeleteOrder> {
    Step::Perform(
        DeleteOrder::DeletingItems { order_id },
        Command::Query(Query::DeleteOrderItems { order_id }),
    )
}

impl Stage for DeleteOrder {
    open spec fn admits(self, reply: Reply) -> bool {
        true
    }

    open spec fn follows(self, reply: Reply, step: Step<DeleteOrder>) -> bool {
        match (self, reply) {
            (_, Reply::Failed(error)) => step == Step::<DeleteOrder>::Finish(Err(error)),
            (DeleteOrder::Opening { order_id }, Reply::Done) => step == Step::Perform(
                DeleteOrder::FindingProducts { order_id },
                Command::Query(Query::SelectOrderProducts { order_id }),
            ),
            (DeleteOrder::FindingProducts { order_id }, Reply::Ids(ids)) => step
                == if ids@.len() == 0 {
                deletes_items(order_id)
            } else {
                Step::Perform(
                    DeleteOrder::Releasing { order_id },
                    Command::Query(Query::SetStatuses { ids, status: ProductStatus::Available }),
                )
            },
            (DeleteOrder::Releasing { order_id }, Reply::Affected(_)) => step == deletes_items(
                order_id,
            ),
            (DeleteOrder::DeletingItems { order_id }, Reply::Affected(_)) => step == Step::Perform(
                DeleteOrder::Deleting,
                Command::Query(Query::DeleteOrder { id: order_id }),
            ),
            (DeleteOrder::Deleting, Reply::Affected(_)) => step == Step::Perform(
                DeleteOrder::Committing,
                Command::Commit,
            ),
            (DeleteOrder::Committing, Reply::Done) => ends(
                step,
                Ok(
                    Answer {
                        status: 200,
                        headers: with_trigger(
                            no_headers(),
                            toast_json("Zamowienie zostalo trwale usuniete."@, "success"@),
                        ),
                        body: Content::Empty,
                    },
                ),
            ),
            _ => step is Unexpected,
        }
    }

    fn accepts(&self, reply: &Reply) -> (yes: bool) {
        true
    }

    fn resume(self, reply: Reply) -> (step: Step<DeleteOrder>) {
        match (self, reply) {
            (_, Reply::Failed(error)) => refuse(error),
            (DeleteOrder::Opening { order_id }, Reply::Done) => Step::Perform(
                DeleteOrder::FindingProducts { order_id },
                Command::Query(Query::SelectOrderProducts { order_id }),
            ),
            (DeleteOrder::FindingProducts { order_id }, Reply::Ids(ids)) => {
                if ids.len() == 0 {
                    Step::Perform(
                        DeleteOrder::DeletingItems { order_id },
                        Command::Query(Query::DeleteOrderItems { order_id }),
                    )
                } else {
                    Step::Perform(
                        DeleteOrder::Releasing { order_id },
                        Command::Query(
                            Query::SetStatuses { ids, status: ProductStatus::Available },
                        ),
                    )
                }
            },
            (DeleteOrder::Releasing { order_id }, Reply::Affected(_)) => Step::Perform(
                DeleteOrder::DeletingItems { order_id },
                Command::Query(Query::DeleteOrderItems { order_id }),
            ),
            (DeleteOrder::DeletingItems { order_id }, Reply::Affected(_)) => Step::Perform(
                DeleteOrder::Deleting,
                Command::Query(Query::DeleteOrder { id: order_id }),
            ),
            (DeleteOrder::Deleting, Reply::Affected(_)) => Step::Perform(
                DeleteOrder::Committing,
                Command::Commit,
            ),
            (DeleteOrder::Committing, Reply::Done) => {
                let mut headers = bare_headers();
                add_trigger(
                    &mut headers,
                    &toast("Zamowienie zostalo trwale usuniete.", "success"),
                );
                answer(200, headers, Body::Empty)
            },
            _ => Step::Unexpected,
        }
    }
}

} // verus!
