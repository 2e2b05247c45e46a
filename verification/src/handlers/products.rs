//! Showing, archiving and deleting products.
use crate::handlers::update_product::{collect_found, found_images};
use crate::headers::{
    no_headers, plain_name, set_static_header, visible_ascii, with_header, Entries,
};
use crate::ids::Id;
use crate::json::{flag_value, Json};
use crate::messages::{
    add_trigger, bare_headers, message_value, object2, shown, toast, toast_json, two_members,
    with_trigger,
};
use crate::models::{ProductStatus, Role, TokenClaims};
use crate::protocol::{
    answer, ends, refuse, Answer, AppError, Body, Command, Content, Fault, Query, Reply, Stage, Step,
};
use vstd::prelude::*;

verus! {

/// How far showing a product has come.
pub enum GetProduct {
    Finding,
}

/// Begins to show a product.
pub fn get_product_details(product_id: Id) -> (step: Step<GetProduct>)
    ensures
        step == Step::Perform(
            GetProduct::Finding,
            Command::Query(Query::SelectProduct { id: product_id }),
        ),
{
    Step::Perform(
        GetProduct::Finding,
        Command::Query(Query::SelectProduct { id: product_id }),
    )
}

impl Stage for GetProduct {
    open spec fn admits(self, reply: Reply) -> bool {
        true
    }

    open spec fn follows(self, reply: Reply, step: Step<GetProduct>) -> bool {
        match reply {
            Reply::Failed(error) => step == Step::<GetProduct>::Finish(Err(error)),
            Reply::Product(None) => ends(step, Err(Fault::NotFound)),
            Reply::Product(Some(product)) => ends(
                step,
                Ok(
                    Answer {
                        status: 200,
                        headers: no_headers(),
                        body: Content::Product(product),
                    },
                ),
            ),
            _ => step is Unexpected,
        }
    }

    fn accepts(&self, reply: &Reply) -> (yes: bool) {
        true
    }

    fn resume(self, reply: Reply) -> (step: Step<GetProduct>) {
        match reply {
            Reply::Failed(error) => refuse(error),
            Reply::Product(None) => refuse(AppError::NotFound),
            Reply::Product(Some(product)) => answer(200, bare_headers(), Body::Product(product)),
            _ => Step::Unexpected,
        }
    }
}

/// The events that have the list of products loaded again and a message shown.
pub open spec fn reload_events(message: Seq<char>) -> Json {
    two_members(
        "reloadAdminProductList"@,
        Json::Flag(true),
        "showMessage"@,
        shown(message, "success"@),
    )
}

/// The headers that have the list of products loaded again and a message shown, or the list alone
/// where the message may not stand in a header.
pub open spec fn reload_headers(message: Seq<char>) -> Entries {
    with_trigger(
        with_header(no_headers(), "HX-Trigger"@, "reloadAdminProductList"@),
        reload_events(message),
    )
}

fn reload(message: &str) -> (step: Step<ArchivizeProduct>)
    ensures
        ends(
            step,
            Ok(
                (Answer { status: 200, headers: reload_headers(message@), body: Content::Empty }),
            ),
        ),
{
    let mut headers = bare_headers();
    proof {
        reveal_strlit("HX-Trigger");
        reveal_strlit("reloadAdminProductList");
        reveal_strlit("showMessage");
        assert(plain_name("HX-Trigger"@));
        assert(visible_ascii("reloadAdminProductList"@));
    }
    set_static_header(&mut headers, "HX-Trigger", "reloadAdminProductList");
    let events = object2(
        "reloadAdminProductList",
        flag_value(true),
        "showMessage",
        message_value(message, "success"),
    );
    add_trigger(&mut headers, &events);
    answer(200, headers, Body::Empty)
}

/// How far archiving a product has come.
pub enum ArchivizeProduct {
    Archiving,
}

/// Begins to archive a product.
pub fn archivize_product_handler(product_id: Id, claims: TokenClaims) -> (step: Step<
    ArchivizeProduct,
>)
    ensures
        if claims.role != Role::Admin {
            ends(
                step,
                Err(Fault::UnauthorizedAccess("Tylko administrator może usuwać produkty"@)),
            )
        } else {
            step == Step::Perform(
                ArchivizeProduct::Archiving,
                Command::Query(
                    Query::SetProductStatus { id: product_id, status: ProductStatus::Archived },
                ),
            )
        },
{
    if claims.role != Role::Admin {
        return refuse(
            AppError::UnauthorizedAccess("Tylko administrator może usuwać produkty".to_owned()),
        );
    }
    Step::Perform(
        ArchivizeProduct::Archiving,
        Command::Query(
            Query::SetProductStatus { id: product_id, status: ProductStatus::Archived },
        ),
    )
}

impl Stage for ArchivizeProduct {
    open spec fn admits(self, reply: Reply) -> bool {
        true
    }

    /// An unknown product is answered like one that was archived.
    open spec fn follows(self, reply: Reply, step: Step<ArchivizeProduct>) -> bool {
        match reply {
            Reply::Failed(error) => step == Step::<ArchivizeProduct>::Finish(Err(error)),
            Reply::Affected(_) => ends(
                step,
                Ok(
                    Answer {
                        status: 200,
                        headers: reload_headers("Produkt zostal pomyslnie zarchiwizowany."@),
                        body: Content::Empty,
                    },
                ),
            ),
            _ => step is Unexpected,
        }
    }

    fn accepts(&self, reply: &Reply) -> (yes: bool) {
        true
    }

    fn resume(self, reply: Reply) -> (step: Step<ArchivizeProduct>) {
        match reply {
            Reply::Failed(error) => refuse(error),
            Reply::Affected(_) => reload("Produkt zostal pomyslnie zarchiwizowany."),
            _ => Step::Unexpected,
        }
    }
}

/// How far deleting a product has come.
pub enum DeleteProduct {
    Opening { id: Id },
    SearchingOrders { id: Id },
    /// The product stays, because an order names it.
    Keeping,
    Locking { id: Id },
    FindingImages { id: Id },
    DeletingImages { id: Id },
    RollingBack(AppError),
    Deleting,
    Committing,
}

/// Begins to delete a product for good.
pub fn permanent_delete_product_handler(product_id: Id, claims: TokenClaims) -> (step: Step<
    DeleteProduct,
>)
    ensures
        if claims.role != Role::Admin {
            ends(
                step,
                Err(Fault::UnauthorizedAccess("Tylko administrator może trwale usuwać produkty"@)),
            )
        } else {
            step == Step::Perform(DeleteProduct::Opening { id: product_id }, Command::Begin)
        },
{
    if claims.role != Role::Admin {
        return refuse(
            AppError::UnauthorizedAccess(
                "Tylko administrator może trwale usuwać produkty".to_owned(),
            ),
        );
    }
    Step::Perform(DeleteProduct::Opening { id: product_id }, Command::Begin)
}

/// The step that deletes the product's row.
pub open spec fn deletes_row(id: Id) -> Step<DeleteProduct> {
    Step::Perform(DeleteProduct::Deleting, Command::Query(Query::DeleteProduct { id }))
}

impl Stage for DeleteProduct {
    open spec fn admits(self, reply: Reply) -> bool {
        true
    }

    open spec fn follows(self, reply: Reply, step: Step<DeleteProduct>) -> bool {
        match (self, reply) {
            (DeleteProduct::RollingBack(error), _) => step == Step::<DeleteProduct>::Finish(
                Err(error),
            ),
            (DeleteProduct::DeletingImages { .. }, Reply::Failed(error)) => step == Step::Perform(
                DeleteProduct::RollingBack(error),
                Command::Rollback,
            ),
            (_, Reply::Failed(error)) => step == Step::<DeleteProduct>::Finish(Err(error)),
            (DeleteProduct::Opening { id }, Reply::Done) => step == Step::Perform(
                DeleteProduct::SearchingOrders { id },
                Command::Query(Query::FindProductInOrders { id }),
            ),
            (DeleteProduct::SearchingOrders { id }, Reply::Found(found)) => step == if found {
                Step::Perform(DeleteProduct::Keeping, Command::Rollback)
            } else {
                Step::Perform(
                    DeleteProduct::Locking { id },
                    Command::Query(Query::LockProduct { id }),
                )
            },
            (DeleteProduct::Keeping, Reply::Done) => ends(
                step,
                Err(
                    Fault::Conflict(
                        "Nie można usunąć produktu, który jest częścią istniejących zamówień. Zamiast tego zarchiwizuj go."@,
                    ),
                ),
            ),
            (DeleteProduct::Locking { .. }, Reply::Product(None)) => ends(
                step,
                Err(Fault::NotFound),
            ),
            (DeleteProduct::Locking { id }, Reply::Product(Some(product))) => step
                == if product.images@.len() == 0 {
                deletes_row(id)
            } else {
                Step::Perform(
                    DeleteProduct::FindingImages { id },
                    Command::FindImages { urls: product.images },
                )
            },
            (
                DeleteProduct::FindingImages { id },
                Reply::Images(images),
            ) => step matches Step::Perform(stage, Command::DeleteImages { ids }) && stage
                == DeleteProduct::DeletingImages { id } && ids@ == found_images(images@),
            (DeleteProduct::DeletingImages { id }, Reply::Done) => step == deletes_row(id),
            (DeleteProduct::Deleting, Reply::Affected(_)) => step == Step::Perform(
                DeleteProduct::Committing,
                Command::Commit,
            ),
            (DeleteProduct::Committing, Reply::Done) => ends(
                step,
                Ok(
                    Answer {
                        status: 200,
                        headers: with_trigger(
                            no_headers(),
                            toast_json("Produkt zostal trwale usuniety."@, "success"@),
                        ),
                        body: Content::Empty,
                    },
                ),
            ),
            _ => step is Unexpected,
        }
    }

    fn accepts(&self, reply: &Reply) -> (yes: bool) {
        true
    }

    fn resume(self, reply: Reply) -> (step: Step<DeleteProduct>) {
        match (self, reply) {
            (DeleteProduct::RollingBack(error), _) => refuse(error),
            (DeleteProduct::DeletingImages { .. }, Reply::Failed(error)) => Step::Perform(
                DeleteProduct::RollingBack(error),
                Command::Rollback,
            ),
            (_, Reply::Failed(error)) => refuse(error),
            (DeleteProduct::Opening { id }, Reply::Done) => Step::Perform(
                DeleteProduct::SearchingOrders { id },
                Command::Query(Query::FindProductInOrders { id }),
            ),
            (DeleteProduct::SearchingOrders { id }, Reply::Found(found)) => {
                if found {
                    Step::Perform(DeleteProduct::Keeping, Command::Rollback)
                } else {
                    Step::Perform(
                        DeleteProduct::Locking { id },
                        Command::Query(Query::LockProduct { id }),
                    )
                }
            },
            (DeleteProduct::Keeping, Reply::Done) => refuse(
                AppError::Conflict(
                    "Nie można usunąć produktu, który jest częścią istniejących zamówień. Zamiast tego zarchiwizuj go.".to_owned(),
                ),
            ),
            (DeleteProduct::Locking { .. }, Reply::Product(None)) => refuse(AppError::NotFound),
            (DeleteProduct::Locking { id }, Reply::Product(Some(product))) => {
                if product.images.len() == 0 {
                    Step::Perform(
                        DeleteProduct::Deleting,
                        Command::Query(Query::DeleteProduct { id }),
                    )
                } else {
                    Step::Perform(
                        DeleteProduct::FindingImages { id },
                        Command::FindImages { urls: product.images },
                    )
                }
            },
            (DeleteProduct::FindingImages { id }, Reply::Images(images)) => {
                let ids = collect_found(&images);
                Step::Perform(DeleteProduct::DeletingImages { id }, Command::DeleteImages { ids })
            },
            (DeleteProduct::DeletingImages { id }, Reply::Done) => Step::Perform(
                DeleteProduct::Deleting,
                Command::Query(Query::DeleteProduct { id }),
            ),
            (DeleteProduct::Deleting, Reply::Affected(_)) => Step::Perform(
                DeleteProduct::Committing,
                Command::Commit,
            ),
            (DeleteProduct::Committing, Reply::Done) => {
                let mut headers = bare_headers();
                add_trigger(&mut headers, &toast("Produkt zostal trwale usuniety.", "success"));
                answer(200, headers, Body::Empty)
            },
            _ => Step::Unexpected,
        }
    }
}

} // verus!
