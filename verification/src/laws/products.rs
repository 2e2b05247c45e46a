//! What is shown of a product, what archiving and deleting it leaves in the tables, and how that is
//! answered.
use crate::handlers::products::{
    deletes_row, reload_events, ArchivizeProduct, DeleteProduct, GetProduct,
};
use crate::headers::{no_headers, with_header};
use crate::ids::Id;
use crate::json::json_text;
use crate::laws::changed_products::{image_ids, lemma_found_images};
use crate::laws::answers::{law_list_is_loaded_again, law_message_reaches_page};
use crate::messages::toast_json;
use crate::models::{ProductShown, ProductStatus};
use crate::protocol::{Answer, Body, Command, Content, Fault, Outcome, Query, Step};
use crate::store::{at_rest, in_some_order, lemma_goes_on, runs, settled, Service, Store, World};
use vstd::prelude::*;

verus! {

/// The answer that has the list of products loaded again and shows a message.
pub open spec fn reloads_list(message: Seq<char>) -> Answer {
    Answer {
        status: 200,
        headers: with_header(no_headers(), "HX-Trigger"@, json_text(reload_events(message))),
        body: Content::Empty,
    }
}

/// Showing a product changes nothing. Unless a command fails, a product that is there is shown as it is
/// stored, and one that is not there is not found.
pub proof fn law_product_shown(
    product_id: Id,
    start: World,
    outcome: Outcome,
    end: World,
    fuel: nat,
)
    requires
        runs(
            Step::Perform(
                GetProduct::Finding,
                Command::Query(Query::SelectProduct { id: product_id }),
            ),
            start,
            outcome,
            end,
            fuel,
        ),
        at_rest(start),
    ensures
        end.committed == start.committed,
        ({
            let there = start.committed.products.contains_key(product_id);
            &&& outcome is Ok == (there && !end.failed)
            &&& !there && !end.failed ==> (outcome matches Err(error) && error@ is NotFound)
        }),
        outcome matches Ok(response) ==> {
            &&& response.status == 200
            &&& response.body matches Body::Product(product)
            &&& product@ == start.committed.products[product_id]
        },
{
    let s0 = Step::Perform(
        GetProduct::Finding,
        Command::Query(Query::SelectProduct { id: product_id }),
    );
    let (r1, w1, s1) = lemma_goes_on(s0, start, outcome, end, fuel);
    assert(s1 !is Perform);
}

/// Whether a product, where there is one, was archived, and nothing else changed.
pub open spec fn product_was_archived(before: Store, after: Store, product_id: Id) -> bool {
    after == if before.products.contains_key(product_id) {
        Store {
            products: before.products.insert(
                product_id,
                ProductShown {
                    status: ProductStatus::Archived,
                    updated_at: after.products[product_id].updated_at,
                    ..before.products[product_id]
                },
            ),
            ..before
        }
    } else {
        before
    }
}

/// Archiving a product changes its status and when it was changed, and nothing else, or fails and
/// changes nothing. It fails only where a command does. Whether or not there is such a product, the
/// list of products is loaded again.
pub proof fn law_product_archived(
    product_id: Id,
    start: World,
    outcome: Outcome,
    end: World,
    fuel: nat,
)
    requires
        runs(
            Step::Perform(
                ArchivizeProduct::Archiving,
                Command::Query(
                    Query::SetProductStatus { id: product_id, status: ProductStatus::Archived },
                ),
            ),
            start,
            outcome,
            end,
            fuel,
        ),
        at_rest(start),
    ensures
        outcome is Ok == !end.failed,
        outcome matches Ok(response) ==> {
            &&& response@ == reloads_list("Produkt zostal pomyslnie zarchiwizowany."@)
            &&& product_was_archived(start.committed, end.committed, product_id)
        },
        outcome is Err ==> end.committed == start.committed,
{
    let s0 = Step::Perform(
        ArchivizeProduct::Archiving,
        Command::Query(
            Query::SetProductStatus { id: product_id, status: ProductStatus::Archived },
        ),
    );
    reveal_strlit("Produkt zostal pomyslnie zarchiwizowany.");
    law_list_is_loaded_again("Produkt zostal pomyslnie zarchiwizowany."@);
    let (r1, w1, s1) = lemma_goes_on(s0, start, outcome, end, fuel);
    assert(s1 !is Perform);
}

/// Whether a product was deleted: its row is gone, and so may be its places in carts; nothing else
/// changed.
pub open spec fn product_was_deleted(before: Store, after: Store, product_id: Id) -> bool {
    &&& after == Store {
        products: before.products.remove(product_id),
        cart_items: after.cart_items,
        ..before
    }
    &&& forall|item: (Id, Id)|
        item.1 != product_id ==> (after.cart_items.contains(item) == #[trigger]
            before.cart_items.contains(item))
}

/// The answer to who deleted a product.
pub open spec fn deletion_told() -> Answer {
    Answer {
        status: 200,
        headers: with_header(
            no_headers(),
            "HX-Trigger"@,
            json_text(toast_json("Produkt zostal trwale usuniety."@, "success"@)),
        ),
        body: Content::Empty,
    }
}

/// How a request that deletes a product ends, once the product may be deleted.
spec fn row_deleted(product_id: Id, world: World, outcome: Outcome, end: World) -> bool {
    let before = world.committed;
    &&& end.services == world.services
    &&& settled(before, end, product_was_deleted(before, end.committed, product_id))
    &&& outcome is Ok == end.closing is Done
    &&& outcome matches Ok(response) ==> response@ == deletion_told()
    &&& !end.failed ==> outcome is Ok
}

proof fn lemma_row_deleted(
    product_id: Id,
    world: World,
    outcome: Outcome,
    end: World,
    fuel: nat,
)
    requires
        runs(deletes_row(product_id), world, outcome, end, fuel),
        world.open == Some(world.committed),
        world.closing is Untried,
        !world.failed,
    ensures
        row_deleted(product_id, world, outcome, end),
{
    reveal_strlit("Produkt zostal trwale usuniety.");
    reveal_strlit("success");
    law_message_reaches_page("Produkt zostal trwale usuniety."@, "success"@);
    let (r1, w1, s1) = lemma_goes_on(deletes_row(product_id), world, outcome, end, fuel);
    if s1 is Perform {
        let (r2, w2, s2) = lemma_goes_on(s1, w1, outcome, end, (fuel - 1) as nat);
        assert(s2 !is Perform);
    }
}

/// Deleting a product does all of it or nothing. Unless a command fails, it is done if and only if
/// there is such a product and no order names it: one that an order names is a conflict, one that is
/// not there is not found. Once it is done, its images are gone too, and a message says so.
pub proof fn law_product_deleted(
    product_id: Id,
    start: World,
    outcome: Outcome,
    end: World,
    fuel: nat,
)
    requires
        runs(
            Step::Perform(DeleteProduct::Opening { id: product_id }, Command::Begin),
            start,
            outcome,
            end,
            fuel,
        ),
        at_rest(start),
    ensures
        settled(
            start.committed,
            end,
            product_was_deleted(start.committed, end.committed, product_id),
        ),
        outcome is Ok == end.closing is Done,
        outcome matches Ok(response) ==> response@ == deletion_told(),
        outcome is Ok ==> {
            let images = start.committed.products[product_id].images;
            let addresses = images.map_values(|image: String| image@);
            end.services == if images.len() == 0 {
                start.services
            } else {
                start.services.push(
                    Service::Deleted { images: image_ids(start.reading, addresses) },
                )
            }
        },
        ({
            let ordered = in_some_order(start.committed.order_items, product_id);
            let there = start.committed.products.contains_key(product_id);
            &&& ordered || !there ==> outcome is Err && end.committed == start.committed
            &&& ordered && !end.failed ==> (outcome matches Err(error) && error@ == Fault::Conflict(
                "Nie można usunąć produktu, który jest częścią istniejących zamówień. Zamiast tego zarchiwizuj go."@,
            ))
            &&& !ordered && !there && !end.failed ==> (outcome matches Err(error)
                && error@ is NotFound)
            &&& !ordered && there && !end.failed ==> outcome is Ok
        }),
{
    let s0 = Step::Perform(DeleteProduct::Opening { id: product_id }, Command::Begin);
    let (r1, w1, s1) = lemma_goes_on(s0, start, outcome, end, fuel);
    if s1 is Perform {
        let (r2, w2, s2) = lemma_goes_on(s1, w1, outcome, end, (fuel - 1) as nat);
        if s2 is Perform {
            let (r3, w3, s3) = lemma_goes_on(s2, w2, outcome, end, (fuel - 2) as nat);
            if s3 is Perform {
                if s3->Perform_0 is Deleting {
                    lemma_row_deleted(product_id, w3, outcome, end, (fuel - 3) as nat);
                } else {
                    let (r4, w4, s4) = lemma_goes_on(s3, w3, outcome, end, (fuel - 3) as nat);
                    if s4 is Perform {
                        let addresses = start.committed.products[product_id].images.map_values(
                            |image: String| image@,
                        );
                        let found = r4->Images_0@;
                        let reading = start.reading;
                        assert(found =~= addresses.map_values(
                            |address: Seq<char>| (reading.image_ids)(address),
                        ));
                        lemma_found_images(reading, addresses, found);
                        let (r5, w5, s5) = lemma_goes_on(s4, w4, outcome, end, (fuel - 4) as nat);
                        if s5 is Perform {
                            if s5->Perform_0 is Deleting {
                                lemma_row_deleted(product_id, w5, outcome, end, (fuel - 5) as nat);
                            } else {
                                let (r6, w6, s6) = lemma_goes_on(
                                    s5,
                                    w5,
                                    outcome,
                                    end,
                                    (fuel - 5) as nat,
                                );
                                assert(s6 !is Perform);
                            }
                        }
                    }
                }
            }
        }
    }
}

} // verus!
