//! What registering and logging in have to do with passwords and tokens.
use crate::handlers::accounts::{
    first_complaint, logged_in, not_logged_in, note, register_begins, registered, Login, Register,
};
use crate::headers::{no_headers, with_header};
use crate::ids::{lemma_uuid_text_plain, uuid_text, Id};
use crate::json::{
    free_of_delete, json_text, law_json_text_fits_header, members_free_of_delete, quoted, Json,
};
use crate::laws::accounts::{email_taken, logs_in, registers};
use crate::laws::told::{
    law_answer_is_told, law_header_names, law_login_is_told, law_registration_is_told,
    message_text, page_kept,
};
use crate::messages::{quiet, shown, with_trigger};
use crate::models::{
    FieldErrors, LoginPayload, RegistrationPayload, Role, User, ValidationErrors,
};
use crate::protocol::{
    ends, seen, Answer, AppError, Body, Content, Fault, Outcome, Reply, Stage, Step,
};
use crate::store::{at_rest, lemma_goes_on, runs, Service, Store, UserFacts, World};
use vstd::prelude::*;

verus! {

proof fn lemma_plain_member(name: Seq<char>, value: Json)
    requires
        !name.contains('\u{7f}'),
        free_of_delete(value),
    ensures
        members_free_of_delete(seq![(name, value)]),
{
    let members = seq![(name, value)];
    assert(members.drop_last() =~= Seq::empty());
    assert(members_free_of_delete(members.drop_last()));
}

proof fn lemma_plain_members(first: Seq<char>, one: Json, second: Seq<char>, two: Json)
    requires
        !first.contains('\u{7f}'),
        free_of_delete(one),
        !second.contains('\u{7f}'),
        free_of_delete(two),
    ensures
        members_free_of_delete(seq![(first, one), (second, two)]),
{
    let members = seq![(first, one), (second, two)];
    lemma_plain_member(first, one);
    assert(members.drop_last() =~= seq![(first, one)]);
}

proof fn lemma_events_kept(events: Json)
    requires
        free_of_delete(events),
    ensures
        with_trigger(quiet(), events) == page_kept(json_text(events)),
{
    law_json_text_fits_header(events);
    law_header_names();
    assert(quiet() == with_header(no_headers(), "HX-Reswap"@, "none"@));
}

/// The events that tell a new user the id of the account.
pub open spec fn welcome_events(id: Id) -> Seq<char> {
    "{\"registrationComplete\":{\"userId\":"@ + quoted(uuid_text(id)) + "},\"showMessage\":"@
        + message_text("Rejestracja pomyslna! Mozesz sie teraz zalogowac."@, "success"@) + "}"@
}

proof fn lemma_welcome(id: Id)
    ensures
        with_trigger(quiet(), registered(id)) == page_kept(welcome_events(id)),
{
    let message = "Rejestracja pomyslna! Mozesz sie teraz zalogowac."@;
    reveal_strlit("Rejestracja pomyslna! Mozesz sie teraz zalogowac.");
    reveal_strlit("success");
    reveal_strlit("message");
    reveal_strlit("type");
    reveal_strlit("userId");
    reveal_strlit("registrationComplete");
    reveal_strlit("showMessage");
    lemma_uuid_text_plain(id);
    assert(!uuid_text(id).contains('\u{7f}'));
    lemma_plain_member("userId"@, Json::Text(uuid_text(id)));
    lemma_plain_members("message"@, Json::Text(message), "type"@, Json::Text("success"@));
    lemma_plain_members(
        "registrationComplete"@,
        note("userId"@, uuid_text(id)),
        "showMessage"@,
        shown(message, "success"@),
    );
    lemma_events_kept(registered(id));
    law_registration_is_told(id);
}

/// Whether an account was made under this id, with this password hash, and nothing else changed; and
/// its owner is told and shown the account.
pub open spec fn account_was_made(
    payload: RegistrationPayload,
    start: World,
    outcome: Outcome,
    end: World,
    id: Id,
    hash: String,
) -> bool {
    let user = UserFacts { email: payload.email, password_hash: hash, role: Role::Customer };
    &&& !start.committed.users.contains_key(id)
    &&& end.committed == (Store {
        users: start.committed.users.insert(id, user),
        ..start.committed
    })
    &&& outcome matches Ok(response)
    &&& response@.headers == page_kept(welcome_events(id))
    &&& response.body matches Body::User(shown)
    &&& shown.id == id
    &&& shown.email == payload.email
    &&& shown.role == Role::Customer
}

/// A new account keeps what the hashing of its password gave, not the password; its owner is a
/// customer, and is shown the account.
pub proof fn law_password_is_kept_hashed(
    payload: RegistrationPayload,
    start: World,
    outcome: Outcome,
    end: World,
    fuel: nat,
)
    requires
        runs(registers(payload), start, outcome, end, fuel),
        at_rest(start),
        outcome matches Ok(response) && response.status == 201,
    ensures
        exists|id: Id, hash: String|
            {
                &&& #[trigger] account_was_made(payload, start, outcome, end, id, hash)
                &&& end.services == start.services.push(
                    Service::Hashed { password: payload.password@, hash },
                )
            },
{
    let (r1, w1, s1) = lemma_goes_on(registers(payload), start, outcome, end, fuel);
    if s1 is Perform {
        let (r2, w2, s2) = lemma_goes_on(s1, w1, outcome, end, (fuel - 1) as nat);
        if s2 is Perform {
            let (r3, w3, s3) = lemma_goes_on(s2, w2, outcome, end, (fuel - 2) as nat);
            assert(s3 !is Perform);
            if !(r3 is Failed) {
                let user = r3->User_0->0;
                lemma_welcome(user.id);
                assert(account_was_made(
                    payload,
                    start,
                    outcome,
                    end,
                    user.id,
                    user.password_hash,
                ));
            }
        }
    }
}

/// The events that hand a token to who logged in.
pub open spec fn login_events(token: Seq<char>) -> Seq<char> {
    "{\"loginSuccessDetails\":{\"token\":"@ + quoted(token) + "},\"showMessage\":"@ + message_text(
        "Zalogowano pomyslnie!"@,
        "success"@,
    ) + "}"@
}

proof fn lemma_login(token: Seq<char>)
    requires
        !token.contains('\u{7f}'),
    ensures
        with_trigger(quiet(), logged_in(token)) == page_kept(login_events(token)),
{
    let message = "Zalogowano pomyslnie!"@;
    reveal_strlit("Zalogowano pomyslnie!");
    reveal_strlit("success");
    reveal_strlit("message");
    reveal_strlit("type");
    reveal_strlit("token");
    reveal_strlit("loginSuccessDetails");
    reveal_strlit("showMessage");
    lemma_plain_member("token"@, Json::Text(token));
    lemma_plain_members("message"@, Json::Text(message), "type"@, Json::Text("success"@));
    lemma_plain_members(
        "loginSuccessDetails"@,
        note("token"@, token),
        "showMessage"@,
        shown(message, "success"@),
    );
    lemma_events_kept(logged_in(token));
    law_login_is_told(token);
}

/// Whether a request asked for the password to be checked against that of this user.
pub open spec fn checked(
    start: World,
    payload: LoginPayload,
    id: Id,
    valid: bool,
) -> Seq<Service> {
    start.services.push(
        Service::Checked {
            password_hash: start.committed.users[id].password_hash@,
            password: payload.password@,
            valid,
        },
    )
}

/// Who is let in gave the email address of a user, and the password was found valid against what is
/// kept of that user; the token is made out to that user, in that role, and is the one handed out.
pub proof fn law_login_needs_password(
    payload: LoginPayload,
    start: World,
    outcome: Outcome,
    end: World,
    fuel: nat,
)
    requires
        runs(logs_in(payload), start, outcome, end, fuel),
        at_rest(start),
        outcome matches Ok(response) && response.status == 200,
    ensures
        exists|id: Id, token: String|
            {
                &&& start.committed.users.contains_key(id)
                &&& start.committed.users[id].email@ == payload.email@
                &&& end.services == #[trigger] checked(start, payload, id, true).push(
                    Service::Signed { user_id: id, role: start.committed.users[id].role, token },
                )
                &&& !token@.contains('\u{7f}') ==> outcome->Ok_0@.headers == page_kept(
                    login_events(token@),
                )
                &&& outcome->Ok_0@.body == Content::Json(note("status"@, "success"@))
            },
{
    let (r1, w1, s1) = lemma_goes_on(logs_in(payload), start, outcome, end, fuel);
    reveal_strlit("error");
    if s1 is Perform {
        let user = r1->User_0->0;
        let (r2, w2, s2) = lemma_goes_on(s1, w1, outcome, end, (fuel - 1) as nat);
        if s2 is Perform {
            let (r3, w3, s3) = lemma_goes_on(s2, w2, outcome, end, (fuel - 2) as nat);
            assert(s3 !is Perform);
            if !(r3 is Failed) {
                let token = r3->Text_0;
                if !token@.contains('\u{7f}') {
                    lemma_login(token@);
                }
                assert(end.services == checked(start, payload, user.id, true).push(
                    Service::Signed {
                        user_id: user.id,
                        role: start.committed.users[user.id].role,
                        token,
                    },
                ));
            }
        }
    }
}

/// A known user whose password was found wrong is turned away.
pub proof fn law_wrong_password_is_turned_away(
    payload: LoginPayload,
    id: Id,
    start: World,
    outcome: Outcome,
    end: World,
    fuel: nat,
)
    requires
        runs(logs_in(payload), start, outcome, end, fuel),
        at_rest(start),
        end.services == checked(start, payload, id, false),
    ensures
        seen(outcome) == turned_away(),
{
    law_turned_away();
    let (r1, w1, s1) = lemma_goes_on(logs_in(payload), start, outcome, end, fuel);
    if s1 is Perform {
        let (r2, w2, s2) = lemma_goes_on(s1, w1, outcome, end, (fuel - 1) as nat);
        let last = checked(start, payload, id, false).last();
        assert(end.services.last() == last);
        if s2 is Perform {
            let (r3, w3, s3) = lemma_goes_on(s2, w2, outcome, end, (fuel - 2) as nat);
            assert(s3 !is Perform);
            if r3 is Failed {
                assert(end.services.len() == start.services.len() + 1);
                assert(w2.services.last() == last);
            } else {
                assert(end.services.len() == start.services.len() + 2);
            }
        } else if r2 is Failed {
            assert(end.services.len() == start.services.len());
        }
    } else {
        assert(end.services.len() == start.services.len());
    }
}

/// The answer to who is not let in.
pub open spec fn turned_away() -> Result<Answer, Fault> {
    Ok(
        Answer {
            status: 401,
            headers: page_kept(
                "{\"showMessage\":"@ + message_text("Nieprawidlowy email lub haslo."@, "error"@)
                    + "}"@,
            ),
            body: Content::Json(
                Json::Object(
                    seq![("message"@, Json::Text("Nieprawidłowy email lub hasło."@))],
                ),
            ),
        },
    )
}

/// Whoever gives an unknown address or a wrong password is answered in this way.
pub proof fn law_turned_away()
    ensures
        not_logged_in() == turned_away(),
{
    reveal_strlit("Nieprawidlowy email lub haslo.");
    reveal_strlit("error");
    law_answer_is_told(
        401,
        "Nieprawidlowy email lub haslo."@,
        "error"@,
        note("message"@, "Nieprawidłowy email lub hasło."@),
    );
}

/// Who registers an email address that is taken is told so, with the status of a conflict.
pub proof fn law_taken_email_is_told()
    ensures
        email_taken() == Ok::<Answer, Fault>(
            Answer {
                status: 409,
                headers: page_kept(
                    "{\"showMessage\":"@ + message_text(
                        "Podany adres email jest juz zarejestrowany."@,
                        "error"@,
                    ) + "}"@,
                ),
                body: Content::Json(
                    Json::Object(seq![("message"@, Json::Text("Email już istnieje"@))]),
                ),
            },
        ),
{
    reveal_strlit("Podany adres email jest juz zarejestrowany.");
    reveal_strlit("error");
    law_answer_is_told(
        409,
        "Podany adres email jest juz zarejestrowany."@,
        "error"@,
        note("message"@, "Email już istnieje"@),
    );
}

/// Of a form with broken rules, the first rule of the first field speaks: by its message, or else by
/// its code; where there is none, a general sentence does.
pub proof fn law_first_rule_speaks(fields: Seq<FieldErrors>)
    ensures
        fields.len() == 0 || fields[0].errors@.len() == 0 ==> first_complaint(fields)
            == "Niepoprawne dane w formularzu."@,
        fields.len() > 0 && fields[0].errors@.len() > 0 ==> {
            let rule = fields[0].errors@[0];
            first_complaint(fields) == if rule.message is Some {
                rule.message->0@
            } else {
                rule.code@
            }
        },
{
}

/// A form with broken rules is refused before anything is looked up, and its first broken rule is
/// shown.
pub proof fn law_broken_form_is_told(
    payload: RegistrationPayload,
    errors: ValidationErrors,
    step: Step<Register>,
)
    requires
        register_begins(payload, Some(errors), step),
        !first_complaint(errors.fields@).contains('\u{7f}'),
    ensures
        ends(
            step,
            Ok(
                (Answer {
                    status: 422,
                    headers: page_kept(
                        "{\"showMessage\":"@ + message_text(
                            first_complaint(errors.fields@),
                            "error"@,
                        ) + "}"@,
                    ),
                    body: Content::Json(
                        Json::Object(
                            seq![
                                ("details_str"@, Json::Text(errors.text@)),
                                ("error"@, Json::Text("Validation failed"@)),
                            ],
                        ),
                    ),
                }),
            ),
        ),
{
    reveal_strlit("error");
    law_answer_is_told(
        422,
        first_complaint(errors.fields@),
        "error"@,
        Json::Object(
            seq![
                ("details_str"@, Json::Text(errors.text@)),
                ("error"@, Json::Text("Validation failed"@)),
            ],
        ),
    );
}

/// A form without broken rules is looked into: its email address is looked up first.
pub proof fn law_good_form_is_looked_into(payload: RegistrationPayload, step: Step<Register>)
    requires
        register_begins(payload, None, step),
    ensures
        step == registers(payload),
{
}

/// Whether a step ends with the server's own fault: the page stays, and the message is shown.
pub open spec fn server_fails<S>(step: Step<S>, message: Seq<char>, body: Seq<char>) -> bool {
    ends(
        step,
        Ok(
            (Answer {
                status: 500,
                headers: page_kept("{\"showMessage\":"@ + message_text(message, "error"@) + "}"@),
                body: Content::Json(Json::Object(seq![("message"@, Json::Text(body))])),
            }),
        ),
    )
}

/// Where a password cannot be hashed or checked, a user not stored, or a token not made, the server
/// says that it failed.
pub proof fn law_server_faults_are_told(
    email: String,
    user: User,
    error: AppError,
    hashing: Step<Register>,
    adding: Step<Register>,
    verifying: Step<Login>,
    signing: Step<Login>,
)
    requires
        (Register::Hashing { email }).follows(Reply::Failed(error), hashing),
        Register::Adding.follows(Reply::Failed(error), adding),
        (Login::Verifying { user }).follows(Reply::Failed(error), verifying),
        Login::Signing.follows(Reply::Failed(error), signing),
    ensures
        server_fails(hashing, "Błąd serwera podczas przetwarzania danych."@, "Błąd serwera"@),
        server_fails(
            adding,
            "Nie udało się utworzyć konta. Spróbuj ponownie."@,
            "Błąd bazy danych"@,
        ),
        server_fails(verifying, "Blad serwera podczas weryfikacji danych."@, "Blad serwera"@),
        server_fails(signing, "Blad serwera podczas finalizowania logowania."@, "Błąd serwera"@),
{
    reveal_strlit("error");
    reveal_strlit("Błąd serwera podczas przetwarzania danych.");
    reveal_strlit("Nie udało się utworzyć konta. Spróbuj ponownie.");
    reveal_strlit("Blad serwera podczas weryfikacji danych.");
    reveal_strlit("Blad serwera podczas finalizowania logowania.");
    law_answer_is_told(
        500,
        "Błąd serwera podczas przetwarzania danych."@,
        "error"@,
        note("message"@, "Błąd serwera"@),
    );
    law_answer_is_told(
        500,
        "Nie udało się utworzyć konta. Spróbuj ponownie."@,
        "error"@,
        note("message"@, "Błąd bazy danych"@),
    );
    law_answer_is_told(
        500,
        "Blad serwera podczas weryfikacji danych."@,
        "error"@,
        note("message"@, "Blad serwera"@),
    );
    law_answer_is_told(
        500,
        "Blad serwera podczas finalizowania logowania."@,
        "error"@,
        note("message"@, "Błąd serwera"@),
    );
}

} // verus!
