//! Carts of users and of guests: showing them, putting products in and taking them out, and making
//! a guest's cart a user's.
use crate::headers::{
    header_entries, header_valid, no_headers, plain_name, set_header, with_header, Entries,
};
use crate::ids::{fresh_id, lemma_uuid_text_plain, marked_random, uuid_text, write_uuid, Id, XGuestCartId};
use crate::messages::bare_headers;
use crate::models::{
    AddProductToCartPayload, CartDetailsResponse, MergeCartPayload, ProductStatus, TokenClaims,
};
use crate::protocol::{
    answer, ends, refuse, Answer, AppError, Body, CartOwner, Command, Content, DatabaseError, Fault,
    Query, Reply, Stage, Step,
};
use axum::http::{HeaderMap, HeaderValue};
use vstd::prelude::*;

verus! {

/// In what form a cart is sent back.
#[derive(Debug, Clone, Copy, PartialEq, Eq)]
pub enum CartForm {
    Plain,
    /// With the session's id, which a header repeats where `tagged` says so.
    Guest { session: Id, tagged: bool },
}

/// The headers that go with a cart.
pub open spec fn cart_headers(form: CartForm) -> Entries {
    match form {
        CartForm::Guest { session, tagged: true } => with_header(
            no_headers(),
            "X-Guest-Cart-Id"@,
            uuid_text(session),
        ),
        _ => no_headers(),
    }
}

/// The answer that shows a cart.
pub open spec fn cart_answer(form: CartForm, details: CartDetailsResponse) -> Result<
    Answer,
    Fault,
> {
    Ok(
        Answer {
            status: 200,
            headers: cart_headers(form),
            body: match form {
                CartForm::Plain => Content::Cart(details),
                CartForm::Guest { session, .. } => Content::GuestCart {
                    guest_cart_id: session,
                    cart_details: details,
                },
            },
        },
    )
}

fn session_headers(session: Id) -> (headers: HeaderMap<HeaderValue>)
    ensures
        header_entries(headers) == with_header(
            no_headers(),
            "X-Guest-Cart-Id"@,
            uuid_text(session),
        ),
{
    let mut headers = bare_headers();
    let text = write_uuid(session);
    proof {
        reveal_strlit("X-Guest-Cart-Id");
        assert(plain_name("X-Guest-Cart-Id"@));
        lemma_uuid_text_plain(session);
        assert(header_valid(text@));
    }
    set_header(&mut headers, "X-Guest-Cart-Id", text.as_str());
    headers
}

fn show<S>(form: CartForm, details: CartDetailsResponse) -> (step: Step<S>)
    ensures
        ends(step, cart_answer(form, details)),
{
    match form {
        CartForm::Plain => answer(200, bare_headers(), Body::Cart(details)),
        CartForm::Guest { session, tagged } => {
            let headers = if tagged {
                session_headers(session)
            } else {
                bare_headers()
            };
            answer(
                200,
                headers,
                Body::GuestCart { guest_cart_id: session, cart_details: details },
            )
        },
    }
}

/// How far changing a cart has come.
pub enum ChangeCart {
    // Putting a product into a user's cart.
    AddOpening { user_id: Id, product_id: Id },
    AddFindingCart { user_id: Id, product_id: Id },
    AddMakingCart { product_id: Id },
    AddLocking { cart_id: Id, product_id: Id },
    // Putting a product into a guest's cart.
    GuestOpening { session: Id, known: bool, product_id: Id },
    GuestFindingCart { session: Id, product_id: Id },
    GuestMakingCart { session: Id, product_id: Id },
    // Taking a product out.
    RemoveOpening { owner: CartOwner, product_id: Id },
    RemoveFindingCart { owner: CartOwner, product_id: Id },
    // Making a guest's cart a user's.
    MergeOpening { user_id: Id, session: Id },
    MergeFindingCart { user_id: Id, session: Id },
    MergeMakingCart { user_id: Id, session: Id },
    MergeFindingGuest { user_id: Id, cart_id: Id, session: Id },
    MergeMoving { cart_id: Id, guest_cart_id: Id },
    // The last change, then what every change ends with.
    Changing { cart_id: Id, form: CartForm },
    Committing { cart_id: Id, form: CartForm },
    Acquiring { cart_id: Id, form: CartForm },
    Reloading { form: CartForm },
    Describing { form: CartForm },
}

/// The form in which an owner's cart is sent back after a product was taken out.
pub open spec fn remove_form(owner: CartOwner) -> CartForm {
    match owner {
        CartOwner::User(_) => CartForm::Plain,
        CartOwner::Guest(session) => CartForm::Guest { session, tagged: false },
    }
}

/// Begins to put a product into a user's cart.
pub fn add_item_to_cart_handler(claims: TokenClaims, payload: AddProductToCartPayload) -> (step:
    Step<ChangeCart>)
    ensures
        step == Step::Perform(
            ChangeCart::AddOpening { user_id: claims.sub, product_id: payload.product_id },
            Command::Begin,
        ),
{
    Step::Perform(
        ChangeCart::AddOpening { user_id: claims.sub, product_id: payload.product_id },
        Command::Begin,
    )
}

/// Begins to take a product out of a user's cart.
pub fn remove_item_from_cart_handler(claims: TokenClaims, product_id_to_remove: Id) -> (step: Step<
    ChangeCart,
>)
    ensures
        step == Step::Perform(
            ChangeCart::RemoveOpening {
                owner: CartOwner::User(claims.sub),
                product_id: product_id_to_remove,
            },
            Command::Begin,
        ),
{
    Step::Perform(
        ChangeCart::RemoveOpening {
            owner: CartOwner::User(claims.sub),
            product_id: product_id_to_remove,
        },
        Command::Begin,
    )
}

/// Begins to put a product into the cart of a guest session, which the guest named or which is
/// new.
pub fn add_item_to_session_cart(
    session: Id,
    known: bool,
    payload: AddProductToCartPayload,
) -> (step: Step<ChangeCart>)
    ensures
        step == Step::Perform(
            ChangeCart::GuestOpening { session, known, product_id: payload.product_id },
            Command::Begin,
        ),
{
    Step::Perform(
        ChangeCart::GuestOpening { session, known, product_id: payload.product_id },
        Command::Begin,
    )
}

/// Begins to put a product into a guest's cart. A guest without a session gets a new one, under a
/// random id.
pub fn add_item_to_guest_cart(
    guest_cart_id: Option<XGuestCartId>,
    payload: AddProductToCartPayload,
) -> (step: Step<ChangeCart>)
    ensures
        match guest_cart_id {
            Some(id) => step == Step::Perform(
                ChangeCart::GuestOpening {
                    session: id.0,
                    known: true,
                    product_id: payload.product_id,
                },
                Command::Begin,
            ),
            None => exists|session: Id| #[trigger]
                marked_random(session) && step == Step::Perform(
                    ChangeCart::GuestOpening {
                        session,
                        known: false,
                        product_id: payload.product_id,
                    },
                    Command::Begin,
                ),
        },
{
    match guest_cart_id {
        Some(id) => add_item_to_session_cart(id.0, true, payload),
        None => {
            let session = fresh_id();
            add_item_to_session_cart(session, false, payload)
        },
    }
}

/// Begins to take a product out of a guest's cart.
pub fn remove_item_from_guest_cart(
    guest_cart_id: Option<XGuestCartId>,
    product_id_to_remove: Id,
) -> (step: Step<ChangeCart>)
    ensures
        match guest_cart_id {
            Some(id) => step == Step::Perform(
                ChangeCart::RemoveOpening {
                    owner: CartOwner::Guest(id.0),
                    product_id: product_id_to_remove,
                },
                Command::Begin,
            ),
            None => ends(step, Err(Fault::BadRequest("Missing X-Guest-Cart-Id header"@))),
        },
{
    match guest_cart_id {
        Some(id) => Step::Perform(
            ChangeCart::RemoveOpening {
                owner: CartOwner::Guest(id.0),
                product_id: product_id_to_remove,
            },
            Command::Begin,
        ),
        None => refuse(AppError::BadRequest("Missing X-Guest-Cart-Id header".to_owned())),
    }
}

/// Begins to make a guest's cart a user's.
pub fn merge_cart_handler(claims: TokenClaims, payload: MergeCartPayload) -> (step: Step<
    ChangeCart,
>)
    ensures
        step == Step::Perform(
            ChangeCart::MergeOpening { user_id: claims.sub, session: payload.guest_cart_id },
            Command::Begin,
        ),
{
    Step::Perform(
        ChangeCart::MergeOpening { user_id: claims.sub, session: payload.guest_cart_id },
        Command::Begin,
    )
}

/// The step that asks for a statement to be run.
pub open spec fn asks(stage: ChangeCart, query: Query) -> Step<ChangeCart> {
    Step::Perform(stage, Command::Query(query))
}

/// The step that puts a product into a cart.
pub open spec fn puts_in(cart_id: Id, product_id: Id, form: CartForm) -> Step<ChangeCart> {
    asks(ChangeCart::Changing { cart_id, form }, Query::InsertCartItem { cart_id, product_id })
}

/// The step that looks for the product before it is put into a cart.
pub open spec fn locks_product(cart_id: Id, product_id: Id) -> Step<ChangeCart> {
    asks(ChangeCart::AddLocking { cart_id, product_id }, Query::LockProduct { id: product_id })
}

/// The step that looks for the guest's cart which is to become a user's.
pub open spec fn finds_guest(user_id: Id, cart_id: Id, session: Id) -> Step<ChangeCart> {
    asks(
        ChangeCart::MergeFindingGuest { user_id, cart_id, session },
        Query::SelectCart { owner: CartOwner::Guest(session), lock: false },
    )
}

/// The step that makes the changes last.
pub open spec fn commits(cart_id: Id, form: CartForm) -> Step<ChangeCart> {
    Step::Perform(ChangeCart::Committing { cart_id, form }, Command::Commit)
}

fn ask(stage: ChangeCart, query: Query) -> (step: Step<ChangeCart>)
    ensures
        step == asks(stage, query),
{
    Step::Perform(stage, Command::Query(query))
}

impl Stage for ChangeCart {
    open spec fn admits(self, reply: Reply) -> bool {
        true
    }

    open spec fn follows(self, reply: Reply, step: Step<ChangeCart>) -> bool {
        match (self, reply) {
            (_, Reply::Failed(error)) => step == Step::<ChangeCart>::Finish(Err(error)),
            (ChangeCart::AddOpening { user_id, product_id }, Reply::Done) => step == asks(
                ChangeCart::AddFindingCart { user_id, product_id },
                Query::SelectCart { owner: CartOwner::User(user_id), lock: true },
            ),
            (ChangeCart::AddFindingCart { product_id, .. }, Reply::Cart(Some(cart))) => step
                == locks_product(cart.id, product_id),
            (ChangeCart::AddFindingCart { user_id, product_id }, Reply::Cart(None)) => step == asks(
                ChangeCart::AddMakingCart { product_id },
                Query::InsertCart { owner: CartOwner::User(user_id) },
            ),
            (ChangeCart::AddMakingCart { product_id }, Reply::Cart(Some(cart))) => step
                == locks_product(cart.id, product_id),
            (ChangeCart::AddMakingCart { .. }, Reply::Cart(None)) => ends(
                step,
                Err(Fault::RowNotFound),
            ),
            (ChangeCart::AddLocking { .. }, Reply::Product(None)) => ends(
                step,
                Err(Fault::NotFound),
            ),
            (
                ChangeCart::AddLocking { cart_id, product_id },
                Reply::Product(Some(product)),
            ) => if product.status != ProductStatus::Available {
                ends(step, Err(Fault::UnprocessableEntity("Produkt jest niedostępny."@)))
            } else {
                step == puts_in(cart_id, product_id, CartForm::Plain)
            },
            (ChangeCart::GuestOpening { session, known, product_id }, Reply::Done) => step
                == if known {
                asks(
                    ChangeCart::GuestFindingCart { session, product_id },
                    Query::SelectCart { owner: CartOwner::Guest(session), lock: false },
                )
            } else {
                asks(
                    ChangeCart::GuestMakingCart { session, product_id },
                    Query::InsertCart { owner: CartOwner::Guest(session) },
                )
            },
            (
                ChangeCart::GuestFindingCart { session, product_id },
                Reply::Cart(Some(cart)),
            ) => step == puts_in(cart.id, product_id, CartForm::Guest { session, tagged: true }),
            (ChangeCart::GuestFindingCart { session, product_id }, Reply::Cart(None)) => step
                == asks(
                ChangeCart::GuestMakingCart { session, product_id },
                Query::InsertCart { owner: CartOwner::Guest(session) },
            ),
            (
                ChangeCart::GuestMakingCart { session, product_id },
                Reply::Cart(Some(cart)),
            ) => step == puts_in(cart.id, product_id, CartForm::Guest { session, tagged: true }),
            (ChangeCart::GuestMakingCart { .. }, Reply::Cart(None)) => ends(
                step,
                Err(Fault::RowNotFound),
            ),
            (ChangeCart::RemoveOpening { owner, product_id }, Reply::Done) => step == asks(
                ChangeCart::RemoveFindingCart { owner, product_id },
                Query::SelectCart { owner, lock: owner is User },
            ),
            (ChangeCart::RemoveFindingCart { .. }, Reply::Cart(None)) => ends(
                step,
                Err(Fault::NotFound),
            ),
            (ChangeCart::RemoveFindingCart { owner, product_id }, Reply::Cart(Some(cart))) => step
                == asks(
                ChangeCart::Changing { cart_id: cart.id, form: remove_form(owner) },
                Query::DeleteCartItem { cart_id: cart.id, product_id },
            ),
            (ChangeCart::MergeOpening { user_id, session }, Reply::Done) => step == asks(
                ChangeCart::MergeFindingCart { user_id, session },
                Query::SelectCart { owner: CartOwner::User(user_id), lock: false },
            ),
            (ChangeCart::MergeFindingCart { user_id, session }, Reply::Cart(Some(cart))) => step
                == finds_guest(user_id, cart.id, session),
            (ChangeCart::MergeFindingCart { user_id, session }, Reply::Cart(None)) => step == asks(
                ChangeCart::MergeMakingCart { user_id, session },
                Query::InsertCart { owner: CartOwner::User(user_id) },
            ),
            (ChangeCart::MergeMakingCart { user_id, session }, Reply::Cart(Some(cart))) => step
                == finds_guest(user_id, cart.id, session),
            (ChangeCart::MergeMakingCart { .. }, Reply::Cart(None)) => ends(
                step,
                Err(Fault::RowNotFound),
            ),
            (ChangeCart::MergeFindingGuest { cart_id, .. }, Reply::Cart(None)) => step == commits(
                cart_id,
                CartForm::Plain,
            ),
            (
                ChangeCart::MergeFindingGuest { user_id, cart_id, .. },
                Reply::Cart(Some(guest_cart)),
            ) => step == if guest_cart.id != cart_id {
                asks(
                    ChangeCart::MergeMoving { cart_id, guest_cart_id: guest_cart.id },
                    Query::MoveCartItems { to: cart_id, from: guest_cart.id },
                )
            } else {
                asks(
                    ChangeCart::Changing { cart_id, form: CartForm::Plain },
                    Query::DetachGuest { cart_id, user_id },
                )
            },
            (ChangeCart::MergeMoving { cart_id, guest_cart_id }, Reply::Affected(_)) => step
                == asks(
                ChangeCart::Changing { cart_id, form: CartForm::Plain },
                Query::DeleteCart { id: guest_cart_id },
            ),
            (ChangeCart::Changing { cart_id, form }, Reply::Affected(_)) => step == commits(
                cart_id,
                form,
            ),
            (ChangeCart::Committing { cart_id, form }, Reply::Done) => step == Step::Perform(
                ChangeCart::Acquiring { cart_id, form },
                Command::Acquire,
            ),
            (ChangeCart::Acquiring { cart_id, form }, Reply::Done) => step == asks(
                ChangeCart::Reloading { form },
                Query::SelectCartById { id: cart_id },
            ),
            (ChangeCart::Reloading { .. }, Reply::Cart(None)) => ends(step, Err(Fault::RowNotFound)),
            (ChangeCart::Reloading { form }, Reply::Cart(Some(cart))) => step == Step::Perform(
                ChangeCart::Describing { form },
                Command::DescribeCart { cart },
            ),
            (ChangeCart::Describing { form }, Reply::CartDetails(details)) => ends(
                step,
                cart_answer(form, details),
            ),
            _ => step is Unexpected,
        }
    }

    fn accepts(&self, reply: &Reply) -> (yes: bool) {
        true
    }

    fn resume(self, reply: Reply) -> (step: Step<ChangeCart>) {
        match (self, reply) {
            (_, Reply::Failed(error)) => refuse(error),
            (ChangeCart::AddOpening { user_id, product_id }, Reply::Done) => ask(
                ChangeCart::AddFindingCart { user_id, product_id },
                Query::SelectCart { owner: CartOwner::User(user_id), lock: true },
            ),
            (ChangeCart::AddFindingCart { product_id, .. }, Reply::Cart(Some(cart))) => ask(
                ChangeCart::AddLocking { cart_id: cart.id, product_id },
                Query::LockProduct { id: product_id },
            ),
            (ChangeCart::AddFindingCart { user_id, product_id }, Reply::Cart(None)) => ask(
                ChangeCart::AddMakingCart { product_id },
                Query::InsertCart { owner: CartOwner::User(user_id) },
            ),
            (ChangeCart::AddMakingCart { product_id }, Reply::Cart(Some(cart))) => ask(
                ChangeCart::AddLocking { cart_id: cart.id, product_id },
                Query::LockProduct { id: product_id },
            ),
            (ChangeCart::AddMakingCart { .. }, Reply::Cart(None)) => refuse(
                AppError::SqlxError(DatabaseError::RowNotFound),
            ),
            (ChangeCart::AddLocking { .. }, Reply::Product(None)) => refuse(AppError::NotFound),
            (ChangeCart::AddLocking { cart_id, product_id }, Reply::Product(Some(product))) => {
                if product.status != ProductStatus::Available {
                    refuse(AppError::UnprocessableEntity("Produkt jest niedostępny.".to_owned()))
                } else {
                    ask(
                        ChangeCart::Changing { cart_id, form: CartForm::Plain },
                        Query::InsertCartItem { cart_id, product_id },
                    )
                }
            },
            (ChangeCart::GuestOpening { session, known, product_id }, Reply::Done) => {
                if known {
                    ask(
                        ChangeCart::GuestFindingCart { session, product_id },
                        Query::SelectCart { owner: CartOwner::Guest(session), lock: false },
                    )
                } else {
                    ask(
                        ChangeCart::GuestMakingCart { session, product_id },
                        Query::InsertCart { owner: CartOwner::Guest(session) },
                    )
                }
            },
            (ChangeCart::GuestFindingCart { session, product_id }, Reply::Cart(Some(cart))) => ask(
                ChangeCart::Changing {
                    cart_id: cart.id,
                    form: CartForm::Guest { session, tagged: true },
                },
                Query::InsertCartItem { cart_id: cart.id, product_id },
            ),
            (ChangeCart::GuestFindingCart { session, product_id }, Reply::Cart(None)) => ask(
                ChangeCart::GuestMakingCart { session, product_id },
                Query::InsertCart { owner: CartOwner::Guest(session) },
            ),
            (ChangeCart::GuestMakingCart { session, product_id }, Reply::Cart(Some(cart))) => ask(
                ChangeCart::Changing {
                    cart_id: cart.id,
                    form: CartForm::Guest { session, tagged: true },
                },
                Query::InsertCartItem { cart_id: cart.id, product_id },
            ),
            (ChangeCart::GuestMakingCart { .. }, Reply::Cart(None)) => refuse(
                AppError::SqlxError(DatabaseError::RowNotFound),
            ),
            (ChangeCart::RemoveOpening { owner, product_id }, Reply::Done) => {
                let lock = match owner {
                    CartOwner::User(_) => true,
                    CartOwner::Guest(_) => false,
                };
                ask(
                    ChangeCart::RemoveFindingCart { owner, product_id },
                    Query::SelectCart { owner, lock },
                )
            },
            (ChangeCart::RemoveFindingCart { .. }, Reply::Cart(None)) => refuse(AppError::NotFound),
            (ChangeCart::RemoveFindingCart { owner, product_id }, Reply::Cart(Some(cart))) => {
                let form = match owner {
                    CartOwner::User(_) => CartForm::Plain,
                    CartOwner::Guest(session) => CartForm::Guest { session, tagged: false },
                };
                ask(
                    ChangeCart::Changing { cart_id: cart.id, form },
                    Query::DeleteCartItem { cart_id: cart.id, product_id },
                )
            },
            (ChangeCart::MergeOpening { user_id, session }, Reply::Done) => ask(
                ChangeCart::MergeFindingCart { user_id, session },
                Query::SelectCart { owner: CartOwner::User(user_id), lock: false },
            ),
            (ChangeCart::MergeFindingCart { user_id, session }, Reply::Cart(Some(cart))) => ask(
                ChangeCart::MergeFindingGuest { user_id, cart_id: cart.id, session },
                Query::SelectCart { owner: CartOwner::Guest(session), lock: false },
            ),
            (ChangeCart::MergeFindingCart { user_id, session }, Reply::Cart(None)) => ask(
                ChangeCart::MergeMakingCart { user_id, session },
                Query::InsertCart { owner: CartOwner::User(user_id) },
            ),
            (ChangeCart::MergeMakingCart { user_id, session }, Reply::Cart(Some(cart))) => ask(
                ChangeCart::MergeFindingGuest { user_id, cart_id: cart.id, session },
                Query::SelectCart { owner: CartOwner::Guest(session), lock: false },
            ),
            (ChangeCart::MergeMakingCart { .. }, Reply::Cart(None)) => refuse(
                AppError::SqlxError(DatabaseError::RowNotFound),
            ),
            (ChangeCart::MergeFindingGuest { cart_id, .. }, Reply::Cart(None)) => Step::Perform(
                ChangeCart::Committing { cart_id, form: CartForm::Plain },
                Command::Commit,
            ),
            (
                ChangeCart::MergeFindingGuest { user_id, cart_id, .. },
                Reply::Cart(Some(guest_cart)),
            ) => {
                if guest_cart.id != cart_id {
                    ask(
                        ChangeCart::MergeMoving { cart_id, guest_cart_id: guest_cart.id },
                        Query::MoveCartItems { to: cart_id, from: guest_cart.id },
                    )
                } else {
                    ask(
                        ChangeCart::Changing { cart_id, form: CartForm::Plain },
                        Query::DetachGuest { cart_id, user_id },
                    )
                }
            },
            (ChangeCart::MergeMoving { cart_id, guest_cart_id }, Reply::Affected(_)) => ask(
                ChangeCart::Changing { cart_id, form: CartForm::Plain },
                Query::DeleteCart { id: guest_cart_id },
            ),
            (ChangeCart::Changing { cart_id, form }, Reply::Affected(_)) => Step::Perform(
                ChangeCart::Committing { cart_id, form },
                Command::Commit,
            ),
            (ChangeCart::Committing { cart_id, form }, Reply::Done) => Step::Perform(
                ChangeCart::Acquiring { cart_id, form },
                Command::Acquire,
            ),
            (ChangeCart::Acquiring { cart_id, form }, Reply::Done) => ask(
                ChangeCart::Reloading { form },
                Query::SelectCartById { id: cart_id },
            ),
            (ChangeCart::Reloading { .. }, Reply::Cart(None)) => refuse(
                AppError::SqlxError(DatabaseError::RowNotFound),
            ),
            (ChangeCart::Reloading { form }, Reply::Cart(Some(cart))) => Step::Perform(
                ChangeCart::Describing { form },
                Command::DescribeCart { cart },
            ),
            (ChangeCart::Describing { form }, Reply::CartDetails(details)) => show(form, details),
            _ => Step::Unexpected,
        }
    }
}

/// How far showing a cart has come.
pub enum ShowCart {
    Acquiring { owner: CartOwner },
    Finding { owner: CartOwner },
    Describing,
}

/// The answer that shows an empty cart.
pub open spec fn empty_cart_answer() -> Result<Answer, Fault> {
    Ok(Answer { status: 200, headers: no_headers(), body: Content::EmptyCart })
}

/// Begins to show a user's cart.
pub fn get_cart_handler(claims: TokenClaims) -> (step: Step<ShowCart>)
    ensures
        step == Step::Perform(
            ShowCart::Acquiring { owner: CartOwner::User(claims.sub) },
            Command::Acquire,
        ),
{
    Step::Perform(ShowCart::Acquiring { owner: CartOwner::User(claims.sub) }, Command::Acquire)
}

/// Begins to show a guest's cart. A guest without a session has an empty one.
pub fn get_guest_cart(guest_cart_id: Option<XGuestCartId>) -> (step: Step<ShowCart>)
    ensures
        match guest_cart_id {
            Some(id) => step == Step::Perform(
                ShowCart::Acquiring { owner: CartOwner::Guest(id.0) },
                Command::Acquire,
            ),
            None => ends(step, empty_cart_answer()),
        },
{
    match guest_cart_id {
        Some(id) => Step::Perform(
            ShowCart::Acquiring { owner: CartOwner::Guest(id.0) },
            Command::Acquire,
        ),
        None => answer(200, bare_headers(), Body::EmptyCart),
    }
}

impl Stage for ShowCart {
    open spec fn admits(self, reply: Reply) -> bool {
        true
    }

    open spec fn follows(self, reply: Reply, step: Step<ShowCart>) -> bool {
        match (self, reply) {
            (ShowCart::Acquiring { owner: CartOwner::User(_) }, Reply::Failed(_)) => ends(
                step,
                Err(Fault::InternalServerError("Błąd serwera"@)),
            ),
            (_, Reply::Failed(error)) => step == Step::<ShowCart>::Finish(Err(error)),
            (ShowCart::Acquiring { owner }, Reply::Done) => step == Step::Perform(
                ShowCart::Finding { owner },
                Command::Query(Query::SelectCart { owner, lock: false }),
            ),
            (ShowCart::Finding { owner: CartOwner::User(_) }, Reply::Cart(None)) => ends(
                step,
                Err(Fault::NotFound),
            ),
            (ShowCart::Finding { owner: CartOwner::Guest(_) }, Reply::Cart(None)) => ends(
                step,
                empty_cart_answer(),
            ),
            (ShowCart::Finding { .. }, Reply::Cart(Some(cart))) => step == Step::Perform(
                ShowCart::Describing,
                Command::DescribeCart { cart },
            ),
            (ShowCart::Describing, Reply::CartDetails(details)) => ends(
                step,
                cart_answer(CartForm::Plain, details),
            ),
            _ => step is Unexpected,
        }
    }

    fn accepts(&self, reply: &Reply) -> (yes: bool) {
        true
    }

    fn resume(self, reply: Reply) -> (step: Step<ShowCart>) {
        match (self, reply) {
            (ShowCart::Acquiring { owner: CartOwner::User(_) }, Reply::Failed(_)) => refuse(
                AppError::InternalServerError("Błąd serwera".to_owned()),
            ),
            (_, Reply::Failed(error)) => refuse(error),
            (ShowCart::Acquiring { owner }, Reply::Done) => Step::Perform(
                ShowCart::Finding { owner },
                Command::Query(Query::SelectCart { owner, lock: false }),
            ),
            (ShowCart::Finding { owner: CartOwner::User(_) }, Reply::Cart(None)) => refuse(
                AppError::NotFound,
            ),
            (ShowCart::Finding { owner: CartOwner::Guest(_) }, Reply::Cart(None)) => answer(
                200,
                bare_headers(),
                Body::EmptyCart,
            ),
            (ShowCart::Finding { .. }, Reply::Cart(Some(cart))) => Step::Perform(
                ShowCart::Describing,
                Command::DescribeCart { cart },
            ),
            (ShowCart::Describing, Reply::CartDetails(details)) => show(CartForm::Plain, details),
            _ => Step::Unexpected,
        }
    }
}

} // verus!
