use lifehon::front_api::gql_auth::{
    gql_auth_middleware, GqlAuthAction, GqlAuthEvent, GqlLifehonClaims, Token, TokenError,
};
use lifehon::front_api::gql_guards::{Role, RoleGuard};
use lifehon::front_api::gql_models::GqlUser;
use lifehon::front_api::gql_mutations::{
    AddTaskAction, AddTaskEvent, GqlAddHobbyToUserOutput, GqlCreateTaskInput, LoginAction, LoginEvent, LoginInput,
    LoginMutations, Mutations, PostMutations, RegistrationAction, RegistrationEvent, TaskMutations, UserMutations,
    UserRegistrationInput,
};
use lifehon::front_api::gql_query::{CheckTokenAction, CheckTokenEvent, HobbyQuery, LoginQuery, Query, UserQuery};
use lifehon::psql::hobby_psql_model::HobbyModel;
use lifehon::psql::task_psql_model::TaskModel;
use lifehon::psql::user_psql_model::UserModel;
use lifehon::psql::DbError;

fn user(name: &str, email: &str) -> UserModel {
    UserModel {
        id: 11,
        name: name.to_string(),
        display_name: name.to_string(),
        email: email.to_string(),
        login_enabled: true,
        password: "pw".to_string(),
        created_at: 3,
        consent: true,
        public_profile: true,
        exp: 0,
    }
}

fn hobby(name: &str) -> HobbyModel {
    HobbyModel {
        name: name.to_string(),
        created_at: 1,
        enabled: false,
        external_url: "u".to_string(),
        create_user_callback: "c".to_string(),
        token: "t".to_string(),
    }
}

fn task(name: &str) -> TaskModel {
    TaskModel {
        id: 5,
        user_name: "ann".to_string(),
        hobby_name: "chess".to_string(),
        external_id: "x".to_string(),
        name: name.to_string(),
        description: None,
        public: false,
        given_exp: 1,
        created_at: 1,
        finished_at: 2,
    }
}

fn claims() -> GqlLifehonClaims {
    GqlLifehonClaims::for_user(&"ann".to_string(), &"ann@x".to_string())
}

#[test]
fn role_guard_admits_only_its_role() {
    let guard = RoleGuard::new(Role::User);
    assert_eq!(guard.check(Some(Role::User)), Ok(()));
    let refused = guard.check(Some(Role::Anon)).unwrap_err();
    assert_eq!(refused.message, "Forbidden");
    assert_eq!(refused.error_code, None);
    assert!(guard.check(Some(Role::Admin)).is_err());
    assert!(guard.check(None).is_err());
    assert_eq!(RoleGuard::new(Role::Admin).check(Some(Role::Admin)), Ok(()));
}

#[test]
fn gql_auth_without_header_is_anonymous() {
    match gql_auth_middleware(GqlAuthEvent::Request(None)) {
        GqlAuthAction::Proceed(d) => {
            assert_eq!(d.role, Some(Role::Anon));
            assert!(d.claims.is_none() && d.user.is_none());
        },
        _ => panic!("proceed expected"),
    }
}

#[test]
fn gql_auth_with_valid_token_and_user() {
    match gql_auth_middleware(GqlAuthEvent::Request(Some(Token("jwt".to_string())))) {
        GqlAuthAction::DecodeToken(t) => assert_eq!(t.0, "jwt"),
        _ => panic!("decode expected"),
    }
    match gql_auth_middleware(GqlAuthEvent::Decoded(Ok(claims()))) {
        GqlAuthAction::LoadUserByEmail(c) => assert_eq!(c, claims()),
        _ => panic!("lookup expected"),
    }
    match gql_auth_middleware(GqlAuthEvent::UserLoaded(claims(), Ok(user("ann", "ann@x")))) {
        GqlAuthAction::Proceed(d) => {
            assert_eq!(d.role, Some(Role::User));
            assert_eq!(d.claims, Some(claims()));
            assert_eq!(d.user, Some(user("ann", "ann@x")));
        },
        _ => panic!("proceed expected"),
    }
}

#[test]
fn gql_auth_bad_token_or_unknown_user() {
    match gql_auth_middleware(GqlAuthEvent::Decoded(Err(TokenError { message: "expired".to_string() }))) {
        GqlAuthAction::Proceed(d) => assert_eq!(d.role, Some(Role::Anon)),
        _ => panic!("proceed expected"),
    }
    match gql_auth_middleware(GqlAuthEvent::UserLoaded(claims(), Err(DbError))) {
        GqlAuthAction::Proceed(d) => {
            assert_eq!(d.role, None);
            assert!(d.claims.is_none() && d.user.is_none());
        },
        _ => panic!("proceed expected"),
    }
}

#[test]
fn user_resolvers_answer() {
    let hs = GqlUser::hobbies(Ok(vec![hobby("a"), hobby("b")])).unwrap();
    assert_eq!(hs.len(), 2);
    assert_eq!(hs[1].name, "b");
    assert!(!hs[0].enabled);
    assert_eq!(GqlUser::hobbies(Err(DbError)).unwrap_err().message, "Hobbies not found!");
    assert_eq!(GqlUser::all_available_hobbies(Ok(vec![])).unwrap().len(), 0);
    assert_eq!(GqlUser::all_available_hobbies(Err(DbError)).unwrap_err().message, "Hobbies not found!");
}

#[test]
fn task_pagination_counts_full_pages() {
    let p = GqlUser::tasks(Ok(vec![task("a"), task("b")]), 65).unwrap();
    assert_eq!(p.tasks.len(), 2);
    assert_eq!(p.tasks[0].name, "a");
    assert_eq!(p.pages, 2);
    assert_eq!(p.total_amount, Some(65));
    assert_eq!(GqlUser::tasks(Ok(vec![]), 29).unwrap().pages, 0);
    assert_eq!(GqlUser::tasks(Ok(vec![]), 30).unwrap().pages, 1);
    assert_eq!(GqlUser::tasks(Ok(vec![]), -31).unwrap().pages, -1);
    let e = GqlUser::tasks(Err(DbError), 5).unwrap_err();
    assert_eq!(e.message, "[] Error");
}

#[test]
fn query_resolvers_answer() {
    let users = UserQuery::users(Ok(vec![user("a", "a@x"), user("b", "b@x")])).unwrap();
    assert_eq!(users[0].name, "a");
    assert_eq!(users[1].email, "b@x");
    assert_eq!(UserQuery::users(Err(DbError)).unwrap_err().message, "Users not found, error encountered");
    assert_eq!(UserQuery::get_user_for_name(Ok(user("a", "a@x"))).unwrap().id, 11);
    assert_eq!(
        UserQuery::get_user_for_name(Err(DbError)).unwrap_err().message,
        "User not found, error encountered"
    );
    assert_eq!(HobbyQuery::hobbies(Ok(vec![hobby("go")])).unwrap()[0].name, "go");
    assert_eq!(HobbyQuery::hobbies(Err(DbError)).unwrap_err().message, "Cannot find hobbies");
    let _ = Query(UserQuery, HobbyQuery);
}

#[test]
fn token_check_query_steps() {
    match LoginQuery::check_token(CheckTokenEvent::Started { login_enabled: false }) {
        CheckTokenAction::Respond(Err(e)) => assert_eq!(e.message, "Login failed!"),
        _ => panic!("refusal expected"),
    }
    match LoginQuery::check_token(CheckTokenEvent::Started { login_enabled: true }) {
        CheckTokenAction::DecodeToken => {},
        _ => panic!("decode expected"),
    }
    match LoginQuery::check_token(CheckTokenEvent::Decoded(Err(TokenError { message: "x".to_string() }))) {
        CheckTokenAction::Respond(Err(e)) => assert_eq!(e.message, "Token is invalid!"),
        _ => panic!("refusal expected"),
    }
    match LoginQuery::check_token(CheckTokenEvent::Decoded(Ok(claims()))) {
        CheckTokenAction::LoadUserByName(n) => assert_eq!(n, "ann"),
        _ => panic!("lookup expected"),
    }
    match LoginQuery::check_token(CheckTokenEvent::UserLoaded(Ok(user("ann", "ann@x")))) {
        CheckTokenAction::Respond(Ok(u)) => assert_eq!(u.name, "ann"),
        _ => panic!("user expected"),
    }
    match LoginQuery::check_token(CheckTokenEvent::UserLoaded(Err(DbError))) {
        CheckTokenAction::Respond(Err(e)) => assert_eq!(e.message, "Token is wrong!"),
        _ => panic!("refusal expected"),
    }
}

#[test]
fn login_mutation_steps() {
    let input = LoginInput { name: "ann".to_string(), password: "pw".to_string() };
    match LoginMutations::login_user(&input, LoginEvent::Started { login_enabled: false }) {
        LoginAction::Respond(Err(e)) => assert_eq!(e.message, "Login failed!"),
        _ => panic!("refusal expected"),
    }
    match LoginMutations::login_user(&input, LoginEvent::Started { login_enabled: true }) {
        LoginAction::LoadUser(n, p) => {
            assert_eq!(n, "ann");
            assert_eq!(p, "pw");
        },
        _ => panic!("lookup expected"),
    }
    match LoginMutations::login_user(&input, LoginEvent::UserLoaded(Ok(user("ann", "ann@x")))) {
        LoginAction::CreateToken(c) => assert_eq!(c, claims()),
        _ => panic!("token expected"),
    }
    match LoginMutations::login_user(&input, LoginEvent::UserLoaded(Err(DbError))) {
        LoginAction::Respond(Err(e)) => assert_eq!(e.message, "Login failed!"),
        _ => panic!("refusal expected"),
    }
    match LoginMutations::login_user(&input, LoginEvent::TokenCreated(Ok("jwt".to_string()))) {
        LoginAction::Respond(Ok(t)) => assert_eq!(t, "jwt"),
        _ => panic!("token expected"),
    }
    match LoginMutations::login_user(&input, LoginEvent::TokenCreated(Err(TokenError { message: "x".to_string() }))) {
        LoginAction::Respond(Err(e)) => assert_eq!(e.message, "Login failed!"),
        _ => panic!("refusal expected"),
    }
}

#[test]
fn registration_mutation_steps() {
    let input = UserRegistrationInput {
        name: "ann".to_string(),
        email: "ann@x".to_string(),
        password: "pw".to_string(),
        consent: false,
        public_profile: true,
    };
    assert_eq!(input.to_create_user_input().name, "ann");
    match UserMutations::create_user(&input, RegistrationEvent::Started { registration_enabled: false }) {
        RegistrationAction::Respond(Err(e)) => assert_eq!(e.message, "Registration failed!"),
        _ => panic!("refusal expected"),
    }
    match UserMutations::create_user(&input, RegistrationEvent::Started { registration_enabled: true }) {
        RegistrationAction::Insert(row) => {
            assert_eq!(row.email, "ann@x");
            assert!(row.consent);
        },
        _ => panic!("insert expected"),
    }
    match UserMutations::create_user(&input, RegistrationEvent::Inserted(Ok(user("ann", "ann@x")))) {
        RegistrationAction::Respond(Ok(u)) => assert_eq!(u.email, "ann@x"),
        _ => panic!("user expected"),
    }
    match UserMutations::create_user(&input, RegistrationEvent::Inserted(Err(DbError))) {
        RegistrationAction::Respond(Err(e)) => assert_eq!(e.message, "Registration failed!"),
        _ => panic!("refusal expected"),
    }
}

#[test]
fn add_hobby_mutation_answers() {
    assert_eq!(
        UserMutations::add_hobby(Ok(()), "ann".to_string(), "chess".to_string()),
        Ok(GqlAddHobbyToUserOutput { user_name: "ann".to_string(), hobby_name: "chess".to_string() })
    );
    assert_eq!(
        UserMutations::add_hobby(Err(DbError), "ann".to_string(), "chess".to_string()).unwrap_err().message,
        "Error at adding the hobby!"
    );
}

#[test]
fn add_task_mutation_steps() {
    let input = GqlCreateTaskInput {
        id: 1,
        user_name: "ignored".to_string(),
        hobby_name: "chess".to_string(),
        external_id: "x".to_string(),
        name: "drill".to_string(),
        description: Some("d".to_string()),
        public: true,
        given_exp: 4,
        created_at: None,
        finished_at: Some(8),
    };
    assert_eq!(input.to_create_task_input().name, "drill");
    match TaskMutations::add_task(&input, 20, AddTaskEvent::Started(None)) {
        AddTaskAction::Respond(Err(e)) => {
            assert_eq!(e.message, "[SERVER_001] Server error!");
            assert_eq!(e.error_code, Some("SERVER_001".to_string()));
        },
        _ => panic!("refusal expected"),
    }
    match TaskMutations::add_task(&input, 20, AddTaskEvent::Started(Some(user("ann", "ann@x")))) {
        AddTaskAction::Insert(row) => {
            assert_eq!(row.user_name, "ann@x");
            assert_eq!(row.created_at, 20);
            assert_eq!(row.finished_at, 8);
        },
        _ => panic!("insert expected"),
    }
    match TaskMutations::add_task(&input, 20, AddTaskEvent::Inserted(Ok(task("drill")))) {
        AddTaskAction::Respond(Ok(t)) => assert_eq!(t.name, "drill"),
        _ => panic!("task expected"),
    }
    match TaskMutations::add_task(&input, 20, AddTaskEvent::Inserted(Err(DbError))) {
        AddTaskAction::Respond(Err(e)) => {
            assert_eq!(e.message, "");
            assert_eq!(e.error_code, Some("asdsad".to_string()));
        },
        _ => panic!("refusal expected"),
    }
    let _ = Mutations(UserMutations, TaskMutations, LoginMutations);
    let _ = PostMutations;
}
