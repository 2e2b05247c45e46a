//! What registering, logging in and storing an address leave in the tables, and how they are
//! answered.
use crate::handlers::accounts::{
    field_complaint, field_complaints, not_logged_in, note, rule_messages, separated,
    shipping_complaint, shipping_row, told, Login, Register, UpsertShipping,
};
use crate::headers::{no_headers, with_header};
use crate::ids::Id;
use crate::json::json_text;
use crate::laws::answers::law_message_reaches_page;
use crate::laws::placed_orders::holds_text;
use crate::messages::toast_json;
use crate::models::{
    FieldError, FieldErrors, LoginPayload, RegistrationPayload, Role,
    UpdateUserShippingDetailsPayload,
};
use crate::protocol::{seen, Answer, Command, Content, Fault, Outcome, Query, ShippingRow, Step};
use crate::store::{at_rest, lemma_goes_on, registered_email, runs, Store, UserFacts, World};
use vstd::prelude::*;

verus! {

/// The answer to who registers an email address that is taken.
pub open spec fn email_taken() -> Result<Answer, Fault> {
    told(
        409,
        "Podany adres email jest juz zarejestrowany."@,
        "error"@,
        note("message"@, "Email już istnieje"@),
    )
}

/// Whether a customer was added under a free id, and nothing else changed.
pub open spec fn customer_was_added(before: Store, after: Store, id: Id, email: String) -> bool {
    &&& !before.users.contains_key(id)
    &&& after == Store {
        users: before.users.insert(
            id,
            UserFacts {
                email,
                password_hash: after.users[id].password_hash,
                role: Role::Customer,
            },
        ),
        ..before
    }
}

/// Whether some customer was added.
pub open spec fn some_customer_was_added(before: Store, after: Store, email: String) -> bool {
    exists|id: Id| #[trigger] customer_was_added(before, after, id, email)
}

/// The first step of registering with a form that can be used.
pub open spec fn registers(payload: RegistrationPayload) -> Step<Register> {
    Step::Perform(
        Register::LookingUp(payload),
        Command::Query(Query::SelectUser { email: payload.email }),
    )
}

/// Whether a registration is answered with a new account.
pub open spec fn welcomed(outcome: Outcome) -> bool {
    outcome matches Ok(response) && response.status == 201
}

/// Who registers becomes a customer, or nothing changes. Unless a command fails, whoever gives an
/// address that is not taken becomes one; whoever gives one that is taken is told so, and every
/// user stays as they are.
pub proof fn law_registration(
    payload: RegistrationPayload,
    start: World,
    outcome: Outcome,
    end: World,
    fuel: nat,
)
    requires
        runs(registers(payload), start, outcome, end, fuel),
        at_rest(start),
    ensures
        welcomed(outcome) ==> some_customer_was_added(
            start.committed,
            end.committed,
            payload.email,
        ),
        !welcomed(outcome) ==> end.committed == start.committed,
        !registered_email(start.committed, payload.email@) && !end.failed ==> welcomed(outcome),
        registered_email(start.committed, payload.email@) ==> !welcomed(outcome),
        registered_email(start.committed, payload.email@) && !end.failed ==> seen(outcome)
            == email_taken(),
{
    let (r1, w1, s1) = lemma_goes_on(registers(payload), start, outcome, end, fuel);
    if !(r1 is Failed) && r1->User_0 is Some {
        assert(start.committed.users.contains_key((r1->User_0->0).id));
    }
    if s1 is Perform {
        let (r2, w2, s2) = lemma_goes_on(s1, w1, outcome, end, (fuel - 1) as nat);
        if s2 is Perform {
            let (r3, w3, s3) = lemma_goes_on(s2, w2, outcome, end, (fuel - 2) as nat);
            assert(s3 !is Perform);
            if !(r3 is Failed) {
                let id = (r3->User_0->0).id;
                assert(customer_was_added(start.committed, end.committed, id, payload.email));
            }
        }
    }
}

/// Of two registrations with one email address, the second is told that the address is taken, and
/// what the first one stored stays.
pub proof fn law_second_registration(
    first: RegistrationPayload,
    second: RegistrationPayload,
    start: World,
    first_outcome: Outcome,
    between: World,
    second_start: World,
    second_outcome: Outcome,
    end: World,
    fuel: nat,
)
    requires
        runs(registers(first), start, first_outcome, between, fuel),
        at_rest(start),
        welcomed(first_outcome),
        second.email@ == first.email@,
        runs(registers(second), second_start, second_outcome, end, fuel),
        at_rest(second_start),
        second_start.committed == between.committed,
    ensures
        end.committed == between.committed,
        !end.failed ==> seen(second_outcome) == email_taken(),
{
    law_registration(first, start, first_outcome, between, fuel);
    let id = choose|id: Id| #[trigger]
        customer_was_added(start.committed, between.committed, id, first.email);
    assert(second_start.committed.users.contains_key(id));
    law_registration(second, second_start, second_outcome, end, fuel);
}

/// Whether no two users have one email address.
pub open spec fn emails_differ(store: Store) -> bool {
    forall|one: Id, other: Id|
        #![trigger store.users.contains_key(one), store.users.contains_key(other)]
        store.users.contains_key(one) && store.users.contains_key(other) && one != other
            ==> store.users[one].email@ != store.users[other].email@
}

/// Registering keeps the email addresses of users apart.
pub proof fn law_emails_stay_apart(
    payload: RegistrationPayload,
    start: World,
    outcome: Outcome,
    end: World,
    fuel: nat,
)
    requires
        runs(registers(payload), start, outcome, end, fuel),
        at_rest(start),
        emails_differ(start.committed),
    ensures
        emails_differ(end.committed),
{
    law_registration(payload, start, outcome, end, fuel);
    if welcomed(outcome) {
        assert(!registered_email(start.committed, payload.email@));
        let id = choose|id: Id| #[trigger]
            customer_was_added(start.committed, end.committed, id, payload.email);
        assert forall|one: Id, other: Id|
            #![trigger end.committed.users.contains_key(one), end.committed.users.contains_key(other)]
            end.committed.users.contains_key(one) && end.committed.users.contains_key(other)
                && one != other implies end.committed.users[one].email@
            != end.committed.users[other].email@ by {
            if one != id {
                assert(start.committed.users.contains_key(one));
            }
            if other != id {
                assert(start.committed.users.contains_key(other));
            }
        }
    }
}

/// The first step of logging in with a form that can be used.
pub open spec fn logs_in(payload: LoginPayload) -> Step<Login> {
    Step::Perform(
        Login::LookingUp(payload),
        Command::Query(Query::SelectUser { email: payload.email }),
    )
}

/// Logging in changes nothing. Only an email address that some user has is let in; unless a command
/// fails, any other is turned away.
pub proof fn law_login(
    payload: LoginPayload,
    start: World,
    outcome: Outcome,
    end: World,
    fuel: nat,
)
    requires
        runs(logs_in(payload), start, outcome, end, fuel),
        at_rest(start),
    ensures
        end.committed == start.committed,
        (outcome matches Ok(response) && response.status == 200) ==> registered_email(
            start.committed,
            payload.email@,
        ),
        !registered_email(start.committed, payload.email@) && !end.failed ==> seen(outcome)
            == not_logged_in(),
{
    let (r1, w1, s1) = lemma_goes_on(logs_in(payload), start, outcome, end, fuel);
    if !(r1 is Failed) && r1->User_0 is Some {
        assert(start.committed.users.contains_key((r1->User_0->0).id));
    }
    if s1 is Perform {
        let (r2, w2, s2) = lemma_goes_on(s1, w1, outcome, end, (fuel - 1) as nat);
        if s2 is Perform {
            let (r3, w3, s3) = lemma_goes_on(s2, w2, outcome, end, (fuel - 2) as nat);
            assert(s3 !is Perform);
        }
    }
}

/// The tables with an address stored.
pub open spec fn with_address(store: Store, row: ShippingRow) -> Store {
    Store { shipping: store.shipping.insert(row.user_id, row), ..store }
}

/// The first step of storing an address with a form that can be used.
pub open spec fn stores_address(
    user_id: Id,
    payload: UpdateUserShippingDetailsPayload,
) -> Step<UpsertShipping> {
    Step::Perform(
        UpsertShipping::Storing,
        Command::Query(Query::UpsertShipping { shipping: shipping_row(user_id, payload) }),
    )
}

/// The answer to who stored an address.
pub open spec fn address_stored() -> Answer {
    Answer {
        status: 200,
        headers: with_header(
            no_headers(),
            "HX-Trigger"@,
            json_text(toast_json("Twoje dane zostaly zapisane."@, "success"@)),
        ),
        body: Content::Json(note("message"@, "Dane zapisane"@)),
    }
}

/// Unless a command fails, storing an address leaves the user with the one row that the form
/// describes, its empty texts absent; the rows of others stay. Otherwise nothing changes.
pub proof fn law_address_stored(
    user_id: Id,
    payload: UpdateUserShippingDetailsPayload,
    start: World,
    outcome: Outcome,
    end: World,
    fuel: nat,
)
    requires
        runs(stores_address(user_id, payload), start, outcome, end, fuel),
        at_rest(start),
    ensures
        outcome is Ok == !end.failed,
        outcome matches Ok(response) ==> {
            &&& response@ == address_stored()
            &&& end.committed == with_address(start.committed, shipping_row(user_id, payload))
        },
        outcome is Err ==> end.committed == start.committed,
{
    reveal_strlit("Twoje dane zostaly zapisane.");
    reveal_strlit("success");
    law_message_reaches_page("Twoje dane zostaly zapisane."@, "success"@);
    let (r1, w1, s1) = lemma_goes_on(stores_address(user_id, payload), start, outcome, end, fuel);
    assert(s1 !is Perform);
}

/// Whether a row holds an address as the form has it: each column the field of the same name, absent
/// where that is absent or empty.
pub open spec fn row_of_address(
    row: ShippingRow,
    user_id: Id,
    payload: UpdateUserShippingDetailsPayload,
) -> bool {
    &&& row.user_id == user_id
    &&& holds_text(row.first_name, payload.shipping_first_name)
    &&& holds_text(row.last_name, payload.shipping_last_name)
    &&& holds_text(row.address_line1, payload.shipping_address_line1)
    &&& holds_text(row.address_line2, payload.shipping_address_line2)
    &&& holds_text(row.city, payload.shipping_city)
    &&& holds_text(row.postal_code, payload.shipping_postal_code)
    &&& holds_text(row.country, payload.shipping_country)
    &&& holds_text(row.phone, payload.shipping_phone)
}

/// Once an address is stored, each column of the user's row is the form's field of the same name; all
/// other rows, and all other tables, are as they were.
pub proof fn law_address_columns(
    user_id: Id,
    payload: UpdateUserShippingDetailsPayload,
    start: World,
    outcome: Outcome,
    end: World,
    fuel: nat,
)
    requires
        runs(stores_address(user_id, payload), start, outcome, end, fuel),
        at_rest(start),
        outcome is Ok,
    ensures
        end.committed.shipping.contains_key(user_id),
        row_of_address(end.committed.shipping[user_id], user_id, payload),
        end.committed.shipping.remove(user_id) == start.committed.shipping.remove(user_id),
        end.committed == (Store { shipping: end.committed.shipping, ..start.committed }),
{
    law_address_stored(user_id, payload, start, outcome, end, fuel);
    assert(end.committed.shipping.remove(user_id) =~= start.committed.shipping.remove(user_id));
}

/// Storing the same address once more changes nothing, and is answered in the same way.
pub proof fn law_address_stored_again(
    user_id: Id,
    payload: UpdateUserShippingDetailsPayload,
    start: World,
    first: Outcome,
    between: World,
    second_start: World,
    second: Outcome,
    end: World,
    fuel: nat,
)
    requires
        runs(stores_address(user_id, payload), start, first, between, fuel),
        at_rest(start),
        first is Ok,
        runs(stores_address(user_id, payload), second_start, second, end, fuel),
        at_rest(second_start),
        second_start.committed == between.committed,
    ensures
        end.committed == between.committed,
        !end.failed ==> seen(second) == seen(first),
{
    law_address_stored(user_id, payload, start, first, between, fuel);
    law_address_stored(user_id, payload, second_start, second, end, fuel);
    let row = shipping_row(user_id, payload);
    assert(with_address(with_address(start.committed, row), row) =~= with_address(
        start.committed,
        row,
    ));
}

/// What is wrong with an address is said field by field: each field's name, then the messages of the
/// rules that it broke, in their order; rules without a message are passed over.
pub proof fn law_address_complaints(
    fields: Seq<FieldErrors>,
    field: FieldErrors,
    errors: Seq<FieldError>,
    error: FieldError,
)
    ensures
        shipping_complaint(Seq::empty()) == "Błąd walidacji: "@,
        shipping_complaint(fields.push(field)) == shipping_complaint(fields) + (if fields.len() == 0 {
            ""@
        } else {
            "; "@
        }) + field.field@ + ": "@ + separated(rule_messages(field.errors@), ", "@),
        separated(rule_messages(Seq::empty()), ", "@) == ""@,
        error.message is None ==> rule_messages(errors.push(error)) == rule_messages(errors),
        error.message matches Some(message) ==> separated(
            rule_messages(errors.push(error)),
            ", "@,
        ) == separated(rule_messages(errors), ", "@) + (if rule_messages(errors).len() == 0 {
            ""@
        } else {
            ", "@
        }) + message@,
{
    reveal_strlit("");
    assert(""@ =~= Seq::empty());
    let said = field_complaints(fields);
    let more = field_complaints(fields.push(field));
    assert(more =~= said.push(field_complaint(field)));
    assert(more.drop_last() =~= said);
    assert(field_complaints(Seq::empty()) =~= Seq::empty());
    assert(shipping_complaint(Seq::empty()) =~= "Błąd walidacji: "@);
    assert(shipping_complaint(fields.push(field)) =~= shipping_complaint(fields) + (
    if fields.len() == 0 {
        ""@
    } else {
        "; "@
    }) + field.field@ + ": "@ + separated(rule_messages(field.errors@), ", "@));
    assert(errors.push(error).drop_last() =~= errors);
    if let Some(message) = error.message {
        let before = rule_messages(errors);
        assert(before.push(message@).drop_last() =~= before);
        assert(separated(before.push(message@), ", "@) =~= separated(before, ", "@) + (
        if before.len() == 0 {
            ""@
        } else {
            ", "@
        }) + message@);
    }
}

} // verus!
