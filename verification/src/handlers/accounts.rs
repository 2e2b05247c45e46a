//! Accounts: registering, logging in, and a user's address.
use crate::headers::no_headers;
use crate::ids::{uuid_text, write_uuid, Id};
use crate::json::{json_of, text_value, Json};
use crate::messages::{
    add_trigger, bare_headers, message_value, object1, object2, one_member, quiet, quiet_headers,
    shown, toast, toast_json, two_members, with_trigger,
};
use crate::models::{
    FieldError, FieldErrors, LoginPayload, RegistrationPayload, Role, TokenClaims,
    UpdateUserShippingDetailsPayload, User, ValidationErrors,
};
use crate::protocol::{
    answer, ends, refuse, seen, Answer, AppError, Body, Command, Content, DatabaseError, Fault,
    Outcome, Query, Reply, Response, ShippingRow, Stage, Step,
};
use crate::text::{join, join3, option_string_empty_as_none, present};
use serde_json::Value;
use vstd::prelude::*;

verus! {

/// The answer that leaves the page as it is and shows a message.
pub open spec fn told(
    status: u16,
    message: Seq<char>,
    kind: Seq<char>,
    body: Json,
) -> Result<Answer, Fault> {
    Ok(
        Answer {
            status,
            headers: with_trigger(quiet(), toast_json(message, kind)),
            body: Content::Json(body),
        },
    )
}

/// A JSON object with one text.
pub open spec fn note(name: Seq<char>, text: Seq<char>) -> Json {
    one_member(name, Json::Text(text))
}

fn tell<S>(status: u16, message: &str, kind: &str, body: Value) -> (step: Step<S>)
    ensures
        ends(step, told(status, message@, kind@, json_of(body))),
{
    let mut headers = quiet_headers();
    add_trigger(&mut headers, &toast(message, kind));
    answer(status, headers, Body::Json(body))
}

fn note_value(name: &'static str, text: &str) -> (value: Value)
    requires
        name@.len() > 0,
    ensures
        json_of(value) == note(name@, text@),
{
    object1(name, text_value(text))
}

/// What the first broken rule says: its message, else its code.
pub open spec fn first_complaint(fields: Seq<FieldErrors>) -> Seq<char> {
    if fields.len() > 0 && fields[0].errors@.len() > 0 {
        match fields[0].errors@[0].message {
            Some(message) => message@,
            None => fields[0].errors@[0].code@,
        }
    } else {
        "Niepoprawne dane w formularzu."@
    }
}

fn complaint(fields: &Vec<FieldErrors>) -> (text: String)
    ensures
        text@ == first_complaint(fields@),
{
    if fields.len() > 0 && fields[0].errors.len() > 0 {
        match &fields[0].errors[0].message {
            Some(message) => message.clone(),
            None => fields[0].errors[0].code.clone(),
        }
    } else {
        "Niepoprawne dane w formularzu.".to_owned()
    }
}

/// How far registering has come.
pub enum Register {
    LookingUp(RegistrationPayload),
    Hashing { email: String },
    Adding,
}

/// The events that tell of a new account.
pub open spec fn registered(user_id: Id) -> Json {
    two_members(
        "registrationComplete"@,
        note("userId"@, uuid_text(user_id)),
        "showMessage"@,
        shown("Rejestracja pomyslna! Mozesz sie teraz zalogowac."@, "success"@),
    )
}

/// The first step of registering.
pub open spec fn register_begins(
    payload: RegistrationPayload,
    invalid: Option<ValidationErrors>,
    step: Step<Register>,
) -> bool {
    match invalid {
        Some(errors) => ends(
            step,
            told(
                422,
                first_complaint(errors.fields@),
                "error"@,
                two_members(
                    "details_str"@,
                    Json::Text(errors.text@),
                    "error"@,
                    Json::Text("Validation failed"@),
                ),
            ),
        ),
        None => step == Step::Perform(
            Register::LookingUp(payload),
            Command::Query(Query::SelectUser { email: payload.email }),
        ),
    }
}

/// Begins to register an account.
pub fn register_handler(
    payload: RegistrationPayload,
    invalid: Option<ValidationErrors>,
) -> (step: Step<Register>)
    ensures
        register_begins(payload, invalid, step),
{
    match invalid {
        Some(errors) => {
            proof {
                reveal_strlit("details_str");
                reveal_strlit("error");
            }
            let text = complaint(&errors.fields);
            let body = object2(
                "details_str",
                text_value(errors.text.as_str()),
                "error",
                text_value("Validation failed"),
            );
            tell(422, text.as_str(), "error", body)
        },
        None => {
            let email = payload.email.clone();
            Step::Perform(
                Register::LookingUp(payload),
                Command::Query(Query::SelectUser { email }),
            )
        },
    }
}

fn welcome(user: User) -> (step: Step<Register>)
    ensures
        ends(
            step,
            Ok(
                (Answer {
                    status: 201,
                    headers: with_trigger(quiet(), registered(user.id)),
                    body: Content::User(user.public()),
                }),
            ),
        ),
{
    proof {
        reveal_strlit("registrationComplete");
        reveal_strlit("showMessage");
        reveal_strlit("userId");
    }
    let id = write_uuid(user.id);
    let events = object2(
        "registrationComplete",
        note_value("userId", id.as_str()),
        "showMessage",
        message_value("Rejestracja pomyslna! Mozesz sie teraz zalogowac.", "success"),
    );
    let mut headers = quiet_headers();
    add_trigger(&mut headers, &events);
    answer(201, headers, Body::User(user.into_public()))
}

impl Stage for Register {
    open spec fn admits(self, reply: Reply) -> bool {
        true
    }

    open spec fn follows(self, reply: Reply, step: Step<Register>) -> bool {
        match (self, reply) {
            (Register::LookingUp(_), Reply::Failed(error)) => step == Step::<Register>::Finish(
                Err(error),
            ),
            (Register::LookingUp(_), Reply::User(Some(_))) => ends(
                step,
                told(
                    409,
                    "Podany adres email jest juz zarejestrowany."@,
                    "error"@,
                    note("message"@, "Email już istnieje"@),
                ),
            ),
            (Register::LookingUp(payload), Reply::User(None)) => step == Step::Perform(
                Register::Hashing { email: payload.email },
                Command::HashPassword { password: payload.password },
            ),
            (Register::Hashing { .. }, Reply::Failed(_)) => ends(
                step,
                told(
                    500,
                    "Błąd serwera podczas przetwarzania danych."@,
                    "error"@,
                    note("message"@, "Błąd serwera"@),
                ),
            ),
            (Register::Hashing { email }, Reply::Text(password_hash)) => step == Step::Perform(
                Register::Adding,
                Command::Query(
                    Query::InsertUser { email, password_hash, role: Role::Customer },
                ),
            ),
            (Register::Adding, Reply::Failed(_)) | (Register::Adding, Reply::User(None)) => ends(
                step,
                told(
                    500,
                    "Nie udało się utworzyć konta. Spróbuj ponownie."@,
                    "error"@,
                    note("message"@, "Błąd bazy danych"@),
                ),
            ),
            (Register::Adding, Reply::User(Some(user))) => ends(
                step,
                Ok(
                    Answer {
                        status: 201,
                        headers: with_trigger(quiet(), registered(user.id)),
                        body: Content::User(user.public()),
                    },
                ),
            ),
            _ => step is Unexpected,
        }
    }

    fn accepts(&self, reply: &Reply) -> (yes: bool) {
        true
    }

    fn resume(self, reply: Reply) -> (step: Step<Register>) {
        proof {
            reveal_strlit("message");
        }
        match (self, reply) {
            (Register::LookingUp(_), Reply::Failed(error)) => refuse(error),
            (Register::LookingUp(_), Reply::User(Some(_))) => tell(
                409,
                "Podany adres email jest juz zarejestrowany.",
                "error",
                note_value("message", "Email już istnieje"),
            ),
            (Register::LookingUp(payload), Reply::User(None)) => Step::Perform(
                Register::Hashing { email: payload.email },
                Command::HashPassword { password: payload.password },
            ),
            (Register::Hashing { .. }, Reply::Failed(_)) => tell(
                500,
                "Błąd serwera podczas przetwarzania danych.",
                "error",
                note_value("message", "Błąd serwera"),
            ),
            (Register::Hashing { email }, Reply::Text(password_hash)) => Step::Perform(
                Register::Adding,
                Command::Query(Query::InsertUser { email, password_hash, role: Role::Customer }),
            ),
            (Register::Adding, Reply::Failed(_)) | (Register::Adding, Reply::User(None)) => tell(
                500,
                "Nie udało się utworzyć konta. Spróbuj ponownie.",
                "error",
                note_value("message", "Błąd bazy danych"),
            ),
            (Register::Adding, Reply::User(Some(user))) => welcome(user),
            _ => Step::Unexpected,
        }
    }
}

/// How far logging in has come.
pub enum Login {
    LookingUp(LoginPayload),
    Verifying { user: User },
    Signing,
}

/// The answer to an unknown address or a wrong password.
pub open spec fn not_logged_in() -> Result<Answer, Fault> {
    told(
        401,
        "Nieprawidlowy email lub haslo."@,
        "error"@,
        note("message"@, "Nieprawidłowy email lub hasło."@),
    )
}

/// The events that hand out a token.
pub open spec fn logged_in(token: Seq<char>) -> Json {
    two_members(
        "loginSuccessDetails"@,
        note("token"@, token),
        "showMessage"@,
        shown("Zalogowano pomyslnie!"@, "success"@),
    )
}

/// Begins to log a user in.
pub fn login_handler(payload: LoginPayload, invalid: Option<ValidationErrors>) -> (step: Step<
    Login,
>)
    ensures
        match invalid {
            Some(_) => ends(step, Err(Fault::Validation("Błąd walidacji danych"@))),
            None => step == Step::Perform(
                Login::LookingUp(payload),
                Command::Query(Query::SelectUser { email: payload.email }),
            ),
        },
{
    match invalid {
        Some(_) => refuse(AppError::Validation("Błąd walidacji danych".to_owned())),
        None => {
            let email = payload.email.clone();
            Step::Perform(
                Login::LookingUp(payload),
                Command::Query(Query::SelectUser { email }),
            )
        },
    }
}

fn turn_away() -> (step: Step<Login>)
    ensures
        ends(step, not_logged_in()),
{
    proof {
        reveal_strlit("message");
    }
    tell(
        401,
        "Nieprawidlowy email lub haslo.",
        "error",
        note_value("message", "Nieprawidłowy email lub hasło."),
    )
}

fn let_in(token: String) -> (step: Step<Login>)
    ensures
        ends(
            step,
            Ok(
                (Answer {
                    status: 200,
                    headers: with_trigger(quiet(), logged_in(token@)),
                    body: Content::Json(note("status"@, "success"@)),
                }),
            ),
        ),
{
    proof {
        reveal_strlit("loginSuccessDetails");
        reveal_strlit("showMessage");
        reveal_strlit("token");
        reveal_strlit("status");
    }
    let events = object2(
        "loginSuccessDetails",
        note_value("token", token.as_str()),
        "showMessage",
        message_value("Zalogowano pomyslnie!", "success"),
    );
    let mut headers = quiet_headers();
    add_trigger(&mut headers, &events);
    answer(200, headers, Body::Json(note_value("status", "success")))
}

impl Stage for Login {
    open spec fn admits(self, reply: Reply) -> bool {
        true
    }

    open spec fn follows(self, reply: Reply, step: Step<Login>) -> bool {
        match (self, reply) {
            (Login::LookingUp(_), Reply::Failed(error)) => step == Step::<Login>::Finish(
                Err(error),
            ),
            (Login::LookingUp(_), Reply::User(None)) => ends(step, not_logged_in()),
            (Login::LookingUp(payload), Reply::User(Some(user))) => step == Step::Perform(
                Login::Verifying { user },
                Command::VerifyPassword {
                    password_hash: user.password_hash,
                    password: payload.password,
                },
            ),
            (Login::Verifying { .. }, Reply::Failed(_)) => ends(
                step,
                told(
                    500,
                    "Blad serwera podczas weryfikacji danych."@,
                    "error"@,
                    note("message"@, "Blad serwera"@),
                ),
            ),
            (Login::Verifying { user }, Reply::Verified(valid)) => if valid {
                step == Step::Perform(
                    Login::Signing,
                    Command::CreateToken { user_id: user.id, role: user.role },
                )
            } else {
                ends(step, not_logged_in())
            },
            (Login::Signing, Reply::Failed(_)) => ends(
                step,
                told(
                    500,
                    "Blad serwera podczas finalizowania logowania."@,
                    "error"@,
                    note("message"@, "Błąd serwera"@),
                ),
            ),
            (Login::Signing, Reply::Text(token)) => ends(
                step,
                Ok(
                    Answer {
                        status: 200,
                        headers: with_trigger(quiet(), logged_in(token@)),
                        body: Content::Json(note("status"@, "success"@)),
                    },
                ),
            ),
            _ => step is Unexpected,
        }
    }

    fn accepts(&self, reply: &Reply) -> (yes: bool) {
        true
    }

    fn resume(self, reply: Reply) -> (step: Step<Login>) {
        proof {
            reveal_strlit("message");
        }
        match (self, reply) {
            (Login::LookingUp(_), Reply::Failed(error)) => refuse(error),
            (Login::LookingUp(_), Reply::User(None)) => turn_away(),
            (Login::LookingUp(payload), Reply::User(Some(user))) => {
                let password_hash = user.password_hash.clone();
                Step::Perform(
                    Login::Verifying { user },
                    Command::VerifyPassword { password_hash, password: payload.password },
                )
            },
            (Login::Verifying { .. }, Reply::Failed(_)) => tell(
                500,
                "Blad serwera podczas weryfikacji danych.",
                "error",
                note_value("message", "Blad serwera"),
            ),
            (Login::Verifying { user }, Reply::Verified(valid)) => {
                if valid {
                    Step::Perform(
                        Login::Signing,
                        Command::CreateToken { user_id: user.id, role: user.role },
                    )
                } else {
                    turn_away()
                }
            },
            (Login::Signing, Reply::Failed(_)) => tell(
                500,
                "Blad serwera podczas finalizowania logowania.",
                "error",
                note_value("message", "Błąd serwera"),
            ),
            (Login::Signing, Reply::Text(token)) => let_in(token),
            _ => Step::Unexpected,
        }
    }
}

/// Answers whoever has a token with what the token says.
pub fn protected_route_handler(claims: TokenClaims) -> (outcome: Outcome)
    ensures
        seen(outcome) == Ok::<Answer, Fault>(
            Answer {
                status: 200,
                headers: no_headers(),
                body: Content::Claims {
                    message: "Gratulacje! Masz dostep do chronionego zasobu."@,
                    claims,
                },
            },
        ),
{
    let body = Body::Claims {
        message: "Gratulacje! Masz dostep do chronionego zasobu.",
        claims,
    };
    Ok(Response { status: 200, headers: bare_headers(), body })
}

/// How far storing a user's address has come.
pub enum UpsertShipping {
    Storing,
}

/// The messages of broken rules; a rule without one is passed over.
pub open spec fn rule_messages(errors: Seq<FieldError>) -> Seq<Seq<char>>
    decreases errors.len(),
{
    if errors.len() == 0 {
        Seq::empty()
    } else {
        match errors.last().message {
            Some(message) => rule_messages(errors.drop_last()).push(message@),
            None => rule_messages(errors.drop_last()),
        }
    }
}

/// Texts with a separator between each and the next.
pub open spec fn separated(parts: Seq<Seq<char>>, separator: Seq<char>) -> Seq<char>
    decreases parts.len(),
{
    if parts.len() == 0 {
        Seq::empty()
    } else if parts.len() == 1 {
        parts[0]
    } else {
        separated(parts.drop_last(), separator) + separator + parts.last()
    }
}

/// A field's name and the messages of the rules it broke.
pub open spec fn field_complaint(field: FieldErrors) -> Seq<char> {
    field.field@ + ": "@ + separated(rule_messages(field.errors@), ", "@)
}

/// The complaints about each field.
pub open spec fn field_complaints(fields: Seq<FieldErrors>) -> Seq<Seq<char>> {
    fields.map_values(|field: FieldErrors| field_complaint(field))
}

/// The message about an address form that cannot be used.
pub open spec fn shipping_complaint(fields: Seq<FieldErrors>) -> Seq<char> {
    "Błąd walidacji: "@ + separated(field_complaints(fields), "; "@)
}

/// The row for a user's address: empty texts are absent ones.
pub open spec fn shipping_row(user_id: Id, payload: UpdateUserShippingDetailsPayload) -> ShippingRow {
    ShippingRow {
        user_id,
        first_name: present(payload.shipping_first_name),
        last_name: present(payload.shipping_last_name),
        address_line1: present(payload.shipping_address_line1),
        address_line2: present(payload.shipping_address_line2),
        city: present(payload.shipping_city),
        postal_code: present(payload.shipping_postal_code),
        country: present(payload.shipping_country),
        phone: present(payload.shipping_phone),
    }
}

fn write_messages(errors: &Vec<FieldError>) -> (text: String)
    ensures
        text@ == separated(rule_messages(errors@), ", "@),
{
    let mut text = String::new();
    let mut first = true;
    for i in 0..errors.len()
        invariant
            text@ == separated(rule_messages(errors@.take(i as int)), ", "@),
            first == (rule_messages(errors@.take(i as int)).len() == 0),
    {
        let ghost before = rule_messages(errors@.take(i as int));
        assert(errors@.take(i + 1).drop_last() =~= errors@.take(i as int));
        if let Some(message) = &errors[i].message {
            if first {
                text = message.clone();
                first = false;
            } else {
                text.append(", ");
                text.append(message.as_str());
            }
            assert(before.push(message@).drop_last() =~= before);
        }
    }
    assert(errors@.take(errors.len() as int) =~= errors@);
    text
}

fn write_complaints(fields: &Vec<FieldErrors>) -> (text: String)
    ensures
        text@ == separated(field_complaints(fields@), "; "@),
{
    let mut text = String::new();
    for i in 0..fields.len()
        invariant
            text@ == separated(field_complaints(fields@).take(i as int), "; "@),
    {
        let ghost after = field_complaints(fields@).take(i + 1);
        assert(after.drop_last() =~= field_complaints(fields@).take(i as int));
        let messages = write_messages(&fields[i].errors);
        let one = join3(fields[i].field.as_str(), ": ", messages.as_str());
        assert(after.last() == one@);
        if i > 0 {
            text.append("; ");
            text.append(one.as_str());
        } else {
            text = one;
        }
    }
    assert(field_complaints(fields@).take(fields.len() as int) =~= field_complaints(fields@));
    text
}

/// Begins to store a user's address.
pub fn upsert_user_shipping_details_handler(
    claims: TokenClaims,
    payload: UpdateUserShippingDetailsPayload,
    invalid: Option<ValidationErrors>,
) -> (step: Step<UpsertShipping>)
    ensures
        match invalid {
            Some(errors) => ends(
                step,
                told(
                    422,
                    shipping_complaint(errors.fields@),
                    "error"@,
                    note("error"@, "Validation failed"@),
                ),
            ),
            None => step == Step::Perform(
                UpsertShipping::Storing,
                Command::Query(
                    Query::UpsertShipping { shipping: shipping_row(claims.sub, payload) },
                ),
            ),
        },
{
    match invalid {
        Some(errors) => {
            proof {
                reveal_strlit("error");
            }
            let text = join("Błąd walidacji: ", write_complaints(&errors.fields).as_str());
            tell(422, text.as_str(), "error", note_value("error", "Validation failed"))
        },
        None => {
            let shipping = ShippingRow {
                user_id: claims.sub,
                first_name: option_string_empty_as_none(payload.shipping_first_name),
                last_name: option_string_empty_as_none(payload.shipping_last_name),
                address_line1: option_string_empty_as_none(payload.shipping_address_line1),
                address_line2: option_string_empty_as_none(payload.shipping_address_line2),
                city: option_string_empty_as_none(payload.shipping_city),
                postal_code: option_string_empty_as_none(payload.shipping_postal_code),
                country: option_string_empty_as_none(payload.shipping_country),
                phone: option_string_empty_as_none(payload.shipping_phone),
            };
            Step::Perform(
                UpsertShipping::Storing,
                Command::Query(Query::UpsertShipping { shipping }),
            )
        },
    }
}

impl Stage for UpsertShipping {
    open spec fn admits(self, reply: Reply) -> bool {
        true
    }

    open spec fn follows(self, reply: Reply, step: Step<UpsertShipping>) -> bool {
        match reply {
            Reply::Failed(error) => step == Step::<UpsertShipping>::Finish(Err(error)),
            Reply::Found(found) => if found {
                ends(
                    step,
                    Ok(
                        Answer {
                            status: 200,
                            headers: with_trigger(
                                no_headers(),
                                toast_json("Twoje dane zostaly zapisane."@, "success"@),
                            ),
                            body: Content::Json(note("message"@, "Dane zapisane"@)),
                        },
                    ),
                )
            } else {
                ends(step, Err(Fault::RowNotFound))
            },
            _ => step is Unexpected,
        }
    }

    fn accepts(&self, reply: &Reply) -> (yes: bool) {
        true
    }

    fn resume(self, reply: Reply) -> (step: Step<UpsertShipping>) {
        match reply {
            Reply::Failed(error) => refuse(error),
            Reply::Found(found) => {
                if found {
                    proof {
                        reveal_strlit("message");
                    }
                    let mut headers = bare_headers();
                    add_trigger(&mut headers, &toast("Twoje dane zostaly zapisane.", "success"));
                    answer(200, headers, Body::Json(note_value("message", "Dane zapisane")))
                } else {
                    refuse(AppError::SqlxError(DatabaseError::RowNotFound))
                }
            },
            _ => Step::Unexpected,
        }
    }
}

} // verus!
