use serde_json::Value;
use storefront::handlers::{
    login_handler, protected_route_handler, register_handler, upsert_user_shipping_details_handler,
};
use storefront::models::{
    FieldError, FieldErrors, LoginPayload, RegistrationPayload, Role, TokenClaims,
    UpdateUserShippingDetailsPayload, User, ValidationErrors,
};
use storefront::protocol::{
    AppError, Body, Command, DatabaseError, Query, Reply, Response, Stage, Step,
};

fn json(text: &str) -> Value {
    serde_json::from_str(text).unwrap()
}

fn header(response: &Response, name: &str) -> String {
    String::from_utf8(response.headers.get(name).unwrap().as_bytes().to_vec()).unwrap()
}

fn finished<S>(step: Step<S>) -> Response {
    match step {
        Step::Finish(Ok(response)) => response,
        _ => panic!("the request is answered"),
    }
}

fn refused<S>(step: Step<S>) -> AppError {
    match step {
        Step::Finish(Err(error)) => error,
        _ => panic!("the request is refused"),
    }
}

fn performing<S>(step: Step<S>) -> (S, Command) {
    match step {
        Step::Perform(stage, command) => (stage, command),
        _ => panic!("a command is performed"),
    }
}

fn body_json(response: &Response) -> &Value {
    match &response.body {
        Body::Json(value) => value,
        _ => panic!("the body is JSON"),
    }
}

fn user() -> User {
    User {
        id: 0x0123_4567_89ab_4cde_8f01_2345_6789_abcd,
        email: "anna@example.com".to_string(),
        password_hash: "hash".to_string(),
        role: Role::Customer,
        created_at: 1,
        updated_at: 2,
    }
}

fn registration() -> RegistrationPayload {
    RegistrationPayload {
        email: "anna@example.com".to_string(),
        password: "tajne".to_string(),
    }
}

fn login() -> LoginPayload {
    LoginPayload {
        email: "anna@example.com".to_string(),
        password: "tajne".to_string(),
    }
}

fn errors(fields: Vec<FieldErrors>) -> Option<ValidationErrors> {
    Some(ValidationErrors { fields, text: "email: \"x\"".to_string() })
}

fn rule(code: &str, message: Option<&str>) -> FieldError {
    FieldError {
        code: code.to_string(),
        message: message.map(|text| text.to_string()),
    }
}

fn field(name: &str, errors: Vec<FieldError>) -> FieldErrors {
    FieldErrors { field: name.to_string(), errors }
}

fn told(response: &Response, status: u16, message: &str, body: &str) {
    assert_eq!(response.status, status);
    assert_eq!(header(response, "HX-Reswap"), "none");
    assert_eq!(
        header(response, "HX-Trigger"),
        format!("{{\"showMessage\":{{\"message\":\"{message}\",\"type\":\"error\"}}}}")
    );
    assert_eq!(response.headers.len(), 2);
    assert_eq!(body_json(response), &json(body));
}

#[test]
fn registration_shows_the_first_complaint() {
    let invalid = errors(vec![
        field("email", vec![rule("email", Some("Zły adres")), rule("length", None)]),
        field("password", vec![rule("length", None)]),
    ]);
    let response = finished(register_handler(registration(), invalid));
    told(
        &response,
        422,
        "Zły adres",
        r#"{"details_str":"email: \"x\"","error":"Validation failed"}"#,
    );
}

#[test]
fn registration_shows_a_code_where_there_is_no_message() {
    let invalid = errors(vec![field("password", vec![rule("length", None)])]);
    let response = finished(register_handler(registration(), invalid));
    told(
        &response,
        422,
        "length",
        r#"{"details_str":"email: \"x\"","error":"Validation failed"}"#,
    );
}

#[test]
fn registration_has_a_general_complaint() {
    for fields in [vec![], vec![field("email", vec![])]] {
        let response = finished(register_handler(registration(), errors(fields)));
        told(
            &response,
            422,
            "Niepoprawne dane w formularzu.",
            r#"{"details_str":"email: \"x\"","error":"Validation failed"}"#,
        );
    }
}

#[test]
fn a_complaint_is_escaped_in_the_header() {
    let invalid = errors(vec![field(
        "email",
        vec![rule("email", Some("a \"b\" \\ \n \u{1} ż"))],
    )]);
    let response = finished(register_handler(registration(), invalid));
    assert_eq!(
        header(&response, "HX-Trigger"),
        "{\"showMessage\":{\"message\":\"a \\\"b\\\" \\\\ \\n \\u0001 ż\",\"type\":\"error\"}}"
    );
}

#[test]
fn a_complaint_with_a_delete_character_is_not_shown() {
    let invalid = errors(vec![field("email", vec![rule("email", Some("a\u{7f}"))])]);
    let response = finished(register_handler(registration(), invalid));
    assert!(response.headers.get("HX-Trigger").is_none());
    assert_eq!(header(&response, "HX-Reswap"), "none");
}

#[test]
fn a_known_address_is_not_registered_again() {
    let (stage, command) = performing(register_handler(registration(), None));
    match command {
        Command::Query(Query::SelectUser { email }) => assert_eq!(email, "anna@example.com"),
        _ => panic!("the user is looked up"),
    }
    told(
        &finished(stage.resume(Reply::User(Some(user())))),
        409,
        "Podany adres email jest juz zarejestrowany.",
        r#"{"message":"Email już istnieje"}"#,
    );
}

#[test]
fn a_new_user_is_a_customer() {
    let (stage, _) = performing(register_handler(registration(), None));
    let (stage, command) = performing(stage.resume(Reply::User(None)));
    match command {
        Command::HashPassword { password } => assert_eq!(password, "tajne"),
        _ => panic!("the password is hashed"),
    }
    let (stage, command) = performing(stage.resume(Reply::Text("hash".to_string())));
    match command {
        Command::Query(Query::InsertUser { email, password_hash, role }) => {
            assert_eq!(email, "anna@example.com");
            assert_eq!(password_hash, "hash");
            assert_eq!(role, Role::Customer);
        }
        _ => panic!("the user is stored"),
    }
    let response = finished(stage.resume(Reply::User(Some(user()))));
    assert_eq!(response.status, 201);
    assert_eq!(header(&response, "HX-Reswap"), "none");
    assert_eq!(
        header(&response, "HX-Trigger"),
        "{\"registrationComplete\":{\"userId\":\"01234567-89ab-4cde-8f01-23456789abcd\"},\"showMessage\":{\"message\":\"Rejestracja pomyslna! Mozesz sie teraz zalogowac.\",\"type\":\"success\"}}"
    );
    match response.body {
        Body::User(public) => {
            assert_eq!(public.id, user().id);
            assert_eq!(public.email, "anna@example.com");
            assert_eq!(public.role, Role::Customer);
        }
        _ => panic!("the user is shown"),
    }
}

#[test]
fn registration_reports_failures() {
    let (stage, _) = performing(register_handler(registration(), None));
    let lost = AppError::SqlxError(DatabaseError::Other("lost".to_string()));
    assert_eq!(
        refused(stage.resume(Reply::Failed(lost))),
        AppError::SqlxError(DatabaseError::Other("lost".to_string()))
    );

    let (stage, _) = performing(register_handler(registration(), None));
    let (stage, _) = performing(stage.resume(Reply::User(None)));
    told(
        &finished(stage.resume(Reply::Failed(AppError::NotFound))),
        500,
        "Błąd serwera podczas przetwarzania danych.",
        r#"{"message":"Błąd serwera"}"#,
    );

    let (stage, _) = performing(register_handler(registration(), None));
    let (stage, _) = performing(stage.resume(Reply::User(None)));
    let (stage, _) = performing(stage.resume(Reply::Text("hash".to_string())));
    told(
        &finished(stage.resume(Reply::Failed(AppError::NotFound))),
        500,
        "Nie udało się utworzyć konta. Spróbuj ponownie.",
        r#"{"message":"Błąd bazy danych"}"#,
    );
}

#[test]
fn login_with_a_bad_form_is_refused() {
    assert_eq!(
        refused(login_handler(login(), errors(vec![]))),
        AppError::Validation("Błąd walidacji danych".to_string())
    );
}

#[test]
fn unknown_address_and_wrong_password_look_alike() {
    let (stage, _) = performing(login_handler(login(), None));
    let unknown = finished(stage.resume(Reply::User(None)));
    let (stage, _) = performing(login_handler(login(), None));
    let (stage, command) = performing(stage.resume(Reply::User(Some(user()))));
    match command {
        Command::VerifyPassword { password_hash, password } => {
            assert_eq!(password_hash, "hash");
            assert_eq!(password, "tajne");
        }
        _ => panic!("the password is verified"),
    }
    let wrong = finished(stage.resume(Reply::Verified(false)));
    for response in [&unknown, &wrong] {
        told(
            response,
            401,
            "Nieprawidlowy email lub haslo.",
            r#"{"message":"Nieprawidłowy email lub hasło."}"#,
        );
    }
}

#[test]
fn login_hands_out_a_token() {
    let (stage, _) = performing(login_handler(login(), None));
    let (stage, _) = performing(stage.resume(Reply::User(Some(user()))));
    let (stage, command) = performing(stage.resume(Reply::Verified(true)));
    match command {
        Command::CreateToken { user_id, role } => {
            assert_eq!(user_id, user().id);
            assert_eq!(role, Role::Customer);
        }
        _ => panic!("a token is made"),
    }
    let response = finished(stage.resume(Reply::Text("a.b.c".to_string())));
    assert_eq!(response.status, 200);
    assert_eq!(
        header(&response, "HX-Trigger"),
        "{\"loginSuccessDetails\":{\"token\":\"a.b.c\"},\"showMessage\":{\"message\":\"Zalogowano pomyslnie!\",\"type\":\"success\"}}"
    );
    assert_eq!(header(&response, "HX-Reswap"), "none");
    assert_eq!(body_json(&response), &json(r#"{"status":"success"}"#));
}

#[test]
fn login_reports_failures() {
    let (stage, _) = performing(login_handler(login(), None));
    let (stage, _) = performing(stage.resume(Reply::User(Some(user()))));
    told(
        &finished(stage.resume(Reply::Failed(AppError::NotFound))),
        500,
        "Blad serwera podczas weryfikacji danych.",
        r#"{"message":"Blad serwera"}"#,
    );
    let (stage, _) = performing(login_handler(login(), None));
    let (stage, _) = performing(stage.resume(Reply::User(Some(user()))));
    let (stage, _) = performing(stage.resume(Reply::Verified(true)));
    told(
        &finished(stage.resume(Reply::Failed(AppError::NotFound))),
        500,
        "Blad serwera podczas finalizowania logowania.",
        r#"{"message":"Błąd serwera"}"#,
    );
}

#[test]
fn an_unfitting_reply_is_noticed() {
    let (stage, _) = performing(login_handler(login(), None));
    assert!(matches!(stage.resume(Reply::Done), Step::Unexpected));
}

#[test]
fn a_token_is_read_back() {
    let claims = TokenClaims { sub: 7, role: Role::Admin, exp: 99 };
    let response = protected_route_handler(claims).unwrap();
    assert_eq!(response.status, 200);
    assert!(response.headers.is_empty());
    match response.body {
        Body::Claims { message, claims } => {
            assert_eq!(message, "Gratulacje! Masz dostep do chronionego zasobu.");
            assert_eq!((claims.sub, claims.role, claims.exp), (7, Role::Admin, 99));
        }
        _ => panic!("the claims are shown"),
    }
}

fn address() -> UpdateUserShippingDetailsPayload {
    UpdateUserShippingDetailsPayload {
        shipping_first_name: Some("Anna".to_string()),
        shipping_last_name: Some(String::new()),
        shipping_address_line1: None,
        shipping_address_line2: None,
        shipping_city: Some("Łódź".to_string()),
        shipping_postal_code: None,
        shipping_country: None,
        shipping_phone: Some(String::new()),
    }
}

#[test]
fn an_address_is_stored_without_empty_texts() {
    let claims = TokenClaims { sub: 7, role: Role::Customer, exp: 0 };
    let (stage, command) = performing(upsert_user_shipping_details_handler(
        claims,
        address(),
        None,
    ));
    match command {
        Command::Query(Query::UpsertShipping { shipping }) => {
            assert_eq!(shipping.user_id, 7);
            assert_eq!(shipping.first_name, Some("Anna".to_string()));
            assert_eq!(shipping.last_name, None);
            assert_eq!(shipping.city, Some("Łódź".to_string()));
            assert_eq!(shipping.phone, None);
        }
        _ => panic!("the address is stored"),
    }
    let response = finished(stage.resume(Reply::Found(true)));
    assert_eq!(response.status, 200);
    assert_eq!(
        header(&response, "HX-Trigger"),
        "{\"showMessage\":{\"message\":\"Twoje dane zostaly zapisane.\",\"type\":\"success\"}}"
    );
    assert!(response.headers.get("HX-Reswap").is_none());
    assert_eq!(body_json(&response), &json(r#"{"message":"Dane zapisane"}"#));
}

#[test]
fn an_address_that_was_not_stored_is_reported() {
    let claims = TokenClaims { sub: 7, role: Role::Customer, exp: 0 };
    let (stage, _) = performing(upsert_user_shipping_details_handler(
        claims,
        address(),
        None,
    ));
    assert_eq!(
        refused(stage.resume(Reply::Found(false))),
        AppError::SqlxError(DatabaseError::RowNotFound)
    );
}

#[test]
fn complaints_about_an_address_are_joined() {
    let claims = TokenClaims { sub: 7, role: Role::Customer, exp: 0 };
    let invalid = errors(vec![
        field(
            "shipping_city",
            vec![rule("a", Some("za krótkie")), rule("b", None), rule("c", Some("złe"))],
        ),
        field("shipping_phone", vec![rule("d", None)]),
        field("shipping_country", vec![rule("e", Some("nieznany"))]),
    ]);
    let response = finished(upsert_user_shipping_details_handler(
        claims,
        address(),
        invalid,
    ));
    told(
        &response,
        422,
        "Błąd walidacji: shipping_city: za krótkie, złe; shipping_phone: ; shipping_country: nieznany",
        r#"{"error":"Validation failed"}"#,
    );
}
