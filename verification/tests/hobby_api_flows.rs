use lifehon::front_api::gql_auth::{GqlLifehonClaims, Token, TokenError, TOKEN_EXPIRATION};
use lifehon::hobby_api::errors::CreateUserErrors;
use lifehon::hobby_api::habi_task::{self, CreateTask};
use lifehon::hobby_api::habi_user::{self, CreateUser};
use lifehon::hobby_api::hapi_auth::{auth_middleware, check_token, HapiAuthAction, HapiAuthEvent, SuccessLogin, UserInfo};
use lifehon::hobby_api::hapi_hobby::{create_hobby, get_all_hobbies, CreateHobbyAction, CreateHobbyEvent, CreateHobbyInput};
use lifehon::hobby_api::hapi_hobby_auth::{
    decode_hapi_token, encode_hapi_token, hapi_token_middleware, hobby_name_from_plaintext, HapiTokenAction, HapiTokenEvent,
};
use lifehon::hobby_api::hapi_task::{self, CreateTaskInput};
use lifehon::hobby_api::hapi_user::{self, CreateUserInput};
use lifehon::hobby_api::validation::task_validation::{validate_create_task, TaskValidationAction, TaskValidationEvent};
use lifehon::hobby_api::validation::user_validation::{validate_user, UserValidationAction, UserValidationEvent};
use lifehon::hobby_api::validation::ValidationFailure;
use lifehon::hobby_api::{
    is_hapi_enabled_middleware, HapiError, BAD_REQUEST, CREATED, INTERNAL_SERVER_ERROR, NO_CONTENT, SERVICE_UNAVAILABLE,
    UNAUTHORIZED,
};
use lifehon::psql::hobby_psql_model::HobbyModel;
use lifehon::psql::task_psql_model::TaskModel;
use lifehon::psql::user_psql_model::UserModel;
use lifehon::psql::DbError;

fn user(name: &str, email: &str) -> UserModel {
    UserModel {
        id: 1,
        name: name.to_string(),
        display_name: name.to_string(),
        email: email.to_string(),
        login_enabled: true,
        password: "pw".to_string(),
        created_at: 0,
        consent: true,
        public_profile: true,
        exp: 0,
    }
}

fn hobby(name: &str) -> HobbyModel {
    HobbyModel {
        name: name.to_string(),
        created_at: 1,
        enabled: true,
        external_url: "http://h".to_string(),
        create_user_callback: "cb".to_string(),
        token: "t".to_string(),
    }
}

fn task_row_model() -> TaskModel {
    TaskModel {
        id: 3,
        user_name: "ann".to_string(),
        hobby_name: "chess".to_string(),
        external_id: "x".to_string(),
        name: "n".to_string(),
        description: None,
        public: false,
        given_exp: 1,
        created_at: 1,
        finished_at: 1,
    }
}

fn registration(consent: bool) -> CreateUserInput {
    CreateUserInput {
        name: "ann".to_string(),
        consent,
        public_profile: false,
        email: "ann@x".to_string(),
        password: "pw".to_string(),
    }
}

fn task_input() -> CreateTaskInput {
    CreateTaskInput {
        name: "drill".to_string(),
        hobby_name: "chess".to_string(),
        external_id: "e1".to_string(),
        description: Some("d".to_string()),
        public: true,
        given_exp: 5,
        created_at: None,
        finished_at: None,
    }
}

fn claims() -> GqlLifehonClaims {
    GqlLifehonClaims::for_user(&"ann".to_string(), &"ann@x".to_string())
}

fn refusal(status: u16, message: &str) -> HapiError {
    HapiError { status, message: message.to_string() }
}

#[test]
fn hapi_gate_follows_site_setting() {
    assert_eq!(is_hapi_enabled_middleware(true), Ok(()));
    assert_eq!(is_hapi_enabled_middleware(false), Err(503));
    assert_eq!(SERVICE_UNAVAILABLE, 503);
}

#[test]
fn hapi_user_lookup_answers() {
    assert_eq!(hapi_user::get_user_for_name(Ok(user("ann", "a@x"))), Ok(user("ann", "a@x")));
    assert_eq!(
        hapi_user::get_user_for_name(Err(DbError)),
        Err(refusal(NO_CONTENT, "[USER_001] user is not found!"))
    );
    assert_eq!(
        habi_user::get_user_for_name(Err(DbError)),
        Err(refusal(204, "[USER_001] user is not found!"))
    );
}

#[test]
fn hapi_registration_flow() {
    let input = registration(true);
    match hapi_user::create_user(&input, hapi_user::CreateUserEvent::Validated(Ok(()))) {
        hapi_user::CreateUserAction::Insert(row) => {
            assert_eq!(row.name, "ann");
            assert!(row.consent);
        },
        _ => panic!("expected an insert"),
    }
    match hapi_user::create_user(
        &input,
        hapi_user::CreateUserEvent::Validated(Err(ValidationFailure::new(CreateUserErrors::NAME_TAKEN))),
    ) {
        hapi_user::CreateUserAction::Respond(r) => assert_eq!(r, Err(refusal(BAD_REQUEST, CreateUserErrors::NAME_TAKEN))),
        _ => panic!("expected an answer"),
    }
    match hapi_user::create_user(&input, hapi_user::CreateUserEvent::Inserted(Err(DbError))) {
        hapi_user::CreateUserAction::Respond(r) => {
            assert_eq!(r, Err(refusal(INTERNAL_SERVER_ERROR, "[USER_002] Something went wrong!")))
        },
        _ => panic!("expected an answer"),
    }
    match hapi_user::create_user(&input, hapi_user::CreateUserEvent::Inserted(Ok(user("ann", "ann@x")))) {
        hapi_user::CreateUserAction::Respond(r) => assert_eq!(r, Ok(user("ann", "ann@x"))),
        _ => panic!("expected an answer"),
    }
}

#[test]
fn hapi_add_hobby_answers() {
    assert_eq!(hapi_user::add_hobby(Ok(())), Ok((CREATED, "Hobby added!".to_string())));
    assert_eq!(hapi_user::add_hobby(Err(DbError)), Err(refusal(500, "[USER_003] Something went wrong!")));
}

#[test]
fn hnode_callback_url_joins_with_backslash() {
    assert_eq!(hapi_user::send_user_to_hnode(&hobby("chess")), "http://h\\cb");
}

#[test]
fn user_validation_order() {
    let input = registration(false);
    match validate_user(&input, UserValidationEvent::Start) {
        UserValidationAction::Done(Err(f)) => assert_eq!(f.message, CreateUserErrors::CONSENT_NOT_AGREED),
        _ => panic!("consent refusal expected"),
    }
    let input = registration(true);
    match validate_user(&input, UserValidationEvent::Start) {
        UserValidationAction::FindUserByName(n) => assert_eq!(n, "ann"),
        _ => panic!("name lookup expected"),
    }
    match validate_user(&input, UserValidationEvent::NameLookedUp(Ok(user("ann", "z@x")))) {
        UserValidationAction::Done(Err(f)) => assert_eq!(f.message, CreateUserErrors::NAME_TAKEN),
        _ => panic!("name refusal expected"),
    }
    match validate_user(&input, UserValidationEvent::NameLookedUp(Err(DbError))) {
        UserValidationAction::FindUserByEmail(e) => assert_eq!(e, "ann@x"),
        _ => panic!("email lookup expected"),
    }
    match validate_user(&input, UserValidationEvent::EmailLookedUp(Ok(user("bob", "ann@x")))) {
        UserValidationAction::Done(Err(f)) => assert_eq!(f.message, CreateUserErrors::EMAIL_TAKEN),
        _ => panic!("email refusal expected"),
    }
    match validate_user(&input, UserValidationEvent::EmailLookedUp(Err(DbError))) {
        UserValidationAction::Done(r) => assert_eq!(r, Ok(())),
        _ => panic!("acceptance expected"),
    }
}

#[test]
fn task_validation_order() {
    let input = task_input();
    let ann = "ann".to_string();
    match validate_create_task(&ann, &input, TaskValidationEvent::Start) {
        TaskValidationAction::FindUserByName(n) => assert_eq!(n, "ann"),
        _ => panic!("user lookup expected"),
    }
    match validate_create_task(&ann, &input, TaskValidationEvent::UserLookedUp(Err(DbError))) {
        TaskValidationAction::Done(Err(f)) => assert_eq!(f.message, CreateUserErrors::NAME_TAKEN),
        _ => panic!("refusal expected"),
    }
    match validate_create_task(&ann, &input, TaskValidationEvent::UserLookedUp(Ok(user("ann", "a@x")))) {
        TaskValidationAction::FindHobbyByName(h) => assert_eq!(h, "chess"),
        _ => panic!("hobby lookup expected"),
    }
    match validate_create_task(&ann, &input, TaskValidationEvent::HobbyLookedUp(Err(DbError))) {
        TaskValidationAction::Done(Err(f)) => assert_eq!(f.message, CreateUserErrors::EMAIL_TAKEN),
        _ => panic!("refusal expected"),
    }
    match validate_create_task(&ann, &input, TaskValidationEvent::HobbyLookedUp(Ok(hobby("chess")))) {
        TaskValidationAction::Done(r) => assert_eq!(r, Ok(())),
        _ => panic!("acceptance expected"),
    }
}

#[test]
fn hapi_task_flow() {
    let input = task_input();
    let ann = "ann".to_string();
    match hapi_task::create_task(&ann, &input, 77, hapi_task::CreateTaskEvent::Validated(Ok(()))) {
        hapi_task::CreateTaskAction::Insert(row) => {
            assert_eq!(row.user_name, "ann");
            assert_eq!(row.created_at, 77);
            assert_eq!(row.finished_at, 77);
            assert_eq!(row.description, "d");
        },
        _ => panic!("insert expected"),
    }
    match hapi_task::create_task(
        &ann,
        &input,
        77,
        hapi_task::CreateTaskEvent::Validated(Err(ValidationFailure::new("nope"))),
    ) {
        hapi_task::CreateTaskAction::Respond(r) => assert_eq!(r, Err(refusal(400, "nope"))),
        _ => panic!("answer expected"),
    }
    match hapi_task::create_task(&ann, &input, 77, hapi_task::CreateTaskEvent::Inserted(Err(DbError))) {
        hapi_task::CreateTaskAction::Respond(r) => assert_eq!(r, Err(refusal(500, "[TASK_001] Something went wrong!"))),
        _ => panic!("answer expected"),
    }
    match hapi_task::create_task(&ann, &input, 77, hapi_task::CreateTaskEvent::Inserted(Ok(task_row_model()))) {
        hapi_task::CreateTaskAction::Respond(r) => assert_eq!(r, Ok(task_row_model())),
        _ => panic!("answer expected"),
    }
}

#[test]
fn habi_task_uses_path_user() {
    let posted = CreateTask {
        user_name: "mallory".to_string(),
        hobby_name: "chess".to_string(),
        external_id: "x".to_string(),
        name: "n".to_string(),
        description: None,
        public: true,
        given_exp: 2,
        created_at: Some(9),
        finished_at: None,
    };
    let input = posted.to_create_task_input();
    assert_eq!(input.hobby_name, "chess");
    match habi_task::create_task(&"ann".to_string(), &posted, 50, habi_task::CreateTaskEvent::Start) {
        habi_task::CreateTaskAction::Insert(row) => {
            assert_eq!(row.user_name, "ann");
            assert_eq!(row.created_at, 9);
            assert_eq!(row.finished_at, 50);
            assert_eq!(row.description, "");
        },
        _ => panic!("insert expected"),
    }
    match habi_task::create_task(&"ann".to_string(), &posted, 50, habi_task::CreateTaskEvent::Inserted(Err(DbError))) {
        habi_task::CreateTaskAction::Respond(r) => assert_eq!(r, Err(refusal(500, "[TASK_001] Something went wrong!"))),
        _ => panic!("answer expected"),
    }
}

#[test]
fn habi_registration_flow() {
    let posted = CreateUser {
        name: "ann".to_string(),
        consent: false,
        public_profile: true,
        email: "a@x".to_string(),
        password: "pw".to_string(),
    };
    assert_eq!(posted.to_create_user_input().email, "a@x");
    match habi_user::create_user(&posted, habi_user::CreateUserEvent::Start) {
        habi_user::CreateUserAction::Insert(row) => {
            assert_eq!(row.display_name, "ann");
            assert!(row.consent);
            assert!(row.public_profile);
        },
        _ => panic!("insert expected"),
    }
    match habi_user::create_user(&posted, habi_user::CreateUserEvent::Inserted(Err(DbError))) {
        habi_user::CreateUserAction::Respond(r) => assert_eq!(r, Err(refusal(500, "[USER_002] Something went wrong!"))),
        _ => panic!("answer expected"),
    }
}

#[test]
fn hapi_check_token_answers() {
    let info = check_token(Ok(claims())).unwrap();
    assert_eq!(info, UserInfo { user_name: "ann".to_string(), id: "ann".to_string(), public_profile: true });
    assert_eq!(
        check_token(Err(TokenError { message: "expired".to_string() })),
        Err(refusal(UNAUTHORIZED, "[LOGIN_005] Bad token"))
    );
    let _ = SuccessLogin { token: "t".to_string() };
}

#[test]
fn hapi_auth_refuses_missing_token_only() {
    match auth_middleware(HapiAuthEvent::Request(None)) {
        HapiAuthAction::Reject(s) => assert_eq!(s, 401),
        _ => panic!("refusal expected"),
    }
    match auth_middleware(HapiAuthEvent::Request(Some(Token("abc".to_string())))) {
        HapiAuthAction::DecodeToken(t) => assert_eq!(t, Token("abc".to_string())),
        _ => panic!("decode expected"),
    }
    match auth_middleware(HapiAuthEvent::Decoded(Err(TokenError { message: "bad".to_string() }))) {
        HapiAuthAction::Proceed(d) => {
            assert!(d.claims.is_none());
            assert!(d.user.is_none());
        },
        _ => panic!("proceed expected"),
    }
    match auth_middleware(HapiAuthEvent::Decoded(Ok(claims()))) {
        HapiAuthAction::LoadUserByEmail(c) => assert_eq!(c.email, "ann@x"),
        _ => panic!("lookup expected"),
    }
    match auth_middleware(HapiAuthEvent::UserLoaded(claims(), Ok(user("ann", "ann@x")))) {
        HapiAuthAction::Proceed(d) => {
            assert_eq!(d.claims, Some(claims()));
            assert_eq!(d.user, Some(user("ann", "ann@x")));
        },
        _ => panic!("proceed expected"),
    }
    match auth_middleware(HapiAuthEvent::UserLoaded(claims(), Err(DbError))) {
        HapiAuthAction::Proceed(d) => assert!(d.user.is_none() && d.claims.is_none()),
        _ => panic!("proceed expected"),
    }
}

#[test]
fn hobby_list_answers() {
    assert_eq!(get_all_hobbies(Ok(vec![hobby("a")])), Ok(vec![hobby("a")]));
    assert_eq!(get_all_hobbies(Err(DbError)), Err(refusal(204, "[HOBBY_001] Hobbies are not found")));
}

#[test]
fn hobby_registration_flow() {
    let input = CreateHobbyInput {
        name: "chess".to_string(),
        created_at: None,
        external_link: Some("http://x".to_string()),
        password: "pw".to_string(),
    };
    match create_hobby(&input, 10, CreateHobbyEvent::TokenIssued(Err(503))) {
        CreateHobbyAction::Respond(r) => assert_eq!(r, Err(refusal(503, "Something went wrong..."))),
        _ => panic!("answer expected"),
    }
    match create_hobby(&input, 10, CreateHobbyEvent::TokenIssued(Ok("tok".to_string()))) {
        CreateHobbyAction::Insert(h) => assert_eq!(
            h,
            HobbyModel {
                name: "chess".to_string(),
                created_at: 10,
                enabled: true,
                external_url: String::new(),
                create_user_callback: String::new(),
                token: "tok".to_string(),
            }
        ),
        _ => panic!("insert expected"),
    }
    match create_hobby(&input, 10, CreateHobbyEvent::Inserted(Err(DbError))) {
        CreateHobbyAction::Respond(r) => assert_eq!(r, Err(refusal(400, "The hobby was not created!"))),
        _ => panic!("answer expected"),
    }
    match create_hobby(&input, 10, CreateHobbyEvent::Inserted(Ok(hobby("chess")))) {
        CreateHobbyAction::Respond(r) => assert_eq!(r, Ok(hobby("chess"))),
        _ => panic!("answer expected"),
    }
}

#[test]
fn hobby_token_plaintext_is_read_as_utf8() {
    let sealed = simple_crypt::encrypt(b"chess", b"server-secret").unwrap();
    let plain = simple_crypt::decrypt(&sealed, b"server-secret").ok();
    assert_eq!(hobby_name_from_plaintext(plain), Ok("chess".to_string()));
    let wrong = simple_crypt::decrypt(&sealed, b"other-secret").ok();
    assert_eq!(hobby_name_from_plaintext(wrong), Err(503));
}

#[test]
fn issued_hobby_token_decodes_to_its_name() {
    for _ in 0..3 {
        match encode_hapi_token("chess", "server-secret") {
            Ok(token) => {
                assert_eq!(decode_hapi_token(&token, "server-secret"), Ok("chess".to_string()));
                assert_eq!(decode_hapi_token(&token, "other-secret"), Err(503));
            },
            Err(status) => assert_eq!(status, 503),
        }
    }
}

#[test]
fn hobby_token_refusals() {
    assert_eq!(decode_hapi_token("not a token", "server-secret"), Err(503));
    assert_eq!(hobby_name_from_plaintext(None), Err(503));
    assert_eq!(hobby_name_from_plaintext(Some(vec![0xff, 0xfe])), Err(503));
    assert_eq!(hobby_name_from_plaintext(Some("日本".as_bytes().to_vec())), Ok("日本".to_string()));
}

#[test]
fn hobby_token_middleware_steps() {
    match hapi_token_middleware("s", HapiTokenEvent::Request(None)) {
        HapiTokenAction::Reject(s) => assert_eq!(s, 503),
        _ => panic!("refusal expected"),
    }
    match hapi_token_middleware("s", HapiTokenEvent::Request(Some("garbage".to_string()))) {
        HapiTokenAction::Reject(s) => assert_eq!(s, 503),
        _ => panic!("refusal expected"),
    }
    match hapi_token_middleware("s", HapiTokenEvent::HobbyLoaded(Ok(hobby("chess")))) {
        HapiTokenAction::Proceed => {},
        _ => panic!("proceed expected"),
    }
    match hapi_token_middleware("s", HapiTokenEvent::HobbyLoaded(Err(DbError))) {
        HapiTokenAction::Reject(s) => assert_eq!(s, 503),
        _ => panic!("refusal expected"),
    }
}

#[test]
fn claims_for_login_expire_at_fixed_time() {
    let c = claims();
    assert_eq!(c.id, "ann");
    assert_eq!(c.email, "ann@x");
    assert_eq!(c.exp, TOKEN_EXPIRATION);
    assert_eq!(TOKEN_EXPIRATION, 100_000_000_000_000);
}
