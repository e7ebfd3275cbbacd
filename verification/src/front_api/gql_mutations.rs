use vstd::prelude::*;

use crate::front_api::gql_auth::{GqlLifehonClaims, TokenError, TOKEN_EXPIRATION};
use crate::front_api::gql_models::{GqlTask, GqlUser};
use crate::front_api::gql_query::is_plain_error;
use crate::front_api::utils::{error_database_not_setup, is_coded_error, GqlError};
use crate::hobby_api::hapi_task::CreateTaskInput;
use crate::hobby_api::hapi_user::CreateUserInput;
use crate::psql::task_psql_model::{gql_task_of, is_new_task_row, lemma_new_task_row_keeps_body, NewTaskRow, TaskModel};
use crate::psql::user_psql_model::{gql_user_of, new_user_row_of, NewUserRow, UserModel};
use crate::psql::DbError;

verus! {

/// The mutations on users.
#[derive(Debug, Default, Clone, Copy, PartialEq, Eq)]
pub struct UserMutations;

/// The mutations on posts (none so far).
#[derive(Debug, Default, Clone, Copy, PartialEq, Eq)]
pub struct PostMutations;

/// The mutations on tasks.
#[derive(Debug, Default, Clone, Copy, PartialEq, Eq)]
pub struct TaskMutations;

/// The login mutation.
#[derive(Debug, Default, Clone, Copy, PartialEq, Eq)]
pub struct LoginMutations;

/// The root of the GraphQL mutations: those on users, on tasks, and login.
#[derive(Debug, Default, Clone, Copy, PartialEq, Eq)]
pub struct Mutations(pub UserMutations, pub TaskMutations, pub LoginMutations);

/// The credentials of a login.
#[derive(Debug, Clone, PartialEq, Eq)]
pub struct LoginInput {
    pub name: String,
    pub password: String,
}

/// The fields of a registration through the GraphQL API.
#[derive(Debug, Clone, PartialEq, Eq)]
pub struct UserRegistrationInput {
    pub name: String,
    pub email: String,
    pub password: String,
    pub consent: bool,
    pub public_profile: bool,
}

/// The fields of a task recorded through the GraphQL API. `id` is a UUID as
/// a 128-bit number; the times count microseconds since the Unix epoch
/// (UTC).
#[derive(Debug, Clone, PartialEq, Eq)]
pub struct GqlCreateTaskInput {
    pub id: u128,
    pub user_name: String,
    pub hobby_name: String,
    pub external_id: String,
    pub name: String,
    pub description: Option<String>,
    pub public: bool,
    pub given_exp: i64,
    pub created_at: Option<i64>,
    pub finished_at: Option<i64>,
}

/// The answer to adding a hobby to a user: both names.
#[derive(Debug, Clone, PartialEq, Eq)]
pub struct GqlAddHobbyToUserOutput {
    pub user_name: String,
    pub hobby_name: String,
}

/// The registration body with the same fields.
pub open spec fn registration_input_of(u: UserRegistrationInput) -> CreateUserInput {
    CreateUserInput {
        name: u.name,
        consent: u.consent,
        public_profile: u.public_profile,
        email: u.email,
        password: u.password,
    }
}

/// The fields of a GraphQL task that its row takes (id and user aside).
pub open spec fn gql_task_input_of(t: GqlCreateTaskInput) -> CreateTaskInput {
    CreateTaskInput {
        name: t.name,
        hobby_name: t.hobby_name,
        external_id: t.external_id,
        description: t.description,
        public: t.public,
        given_exp: t.given_exp,
        created_at: t.created_at,
        finished_at: t.finished_at,
    }
}

fn clone_opt_string(s: &Option<String>) -> (r: Option<String>)
    ensures
        r == *s,
{
    match s {
        Some(v) => Some(v.clone()),
        None => None,
    }
}

impl UserRegistrationInput {
    /// The registration body with the same fields.
    pub fn to_create_user_input(&self) -> (i: CreateUserInput)
        ensures
            i == registration_input_of(*self),
    {
        CreateUserInput {
            name: self.name.clone(),
            consent: self.consent,
            public_profile: self.public_profile,
            email: self.email.clone(),
            password: self.password.clone(),
        }
    }
}

impl GqlCreateTaskInput {
    /// The fields of the task that its row takes.
    pub fn to_create_task_input(&self) -> (i: CreateTaskInput)
        ensures
            i == gql_task_input_of(*self),
    {
        CreateTaskInput {
            name: self.name.clone(),
            hobby_name: self.hobby_name.clone(),
            external_id: self.external_id.clone(),
            description: clone_opt_string(&self.description),
            public: self.public,
            given_exp: self.given_exp,
            created_at: self.created_at,
            finished_at: self.finished_at,
        }
    }
}

/// What a login has just learnt.
pub enum LoginEvent {
    /// The login begins, with whether the site lets users log in.
    Started { login_enabled: bool },
    /// The user with the given name and password was looked up.
    UserLoaded(Result<UserModel, DbError>),
    /// The token was made from the claims, or could not be.
    TokenCreated(Result<String, TokenError>),
}

/// What a login asks for next.
pub enum LoginAction {
    /// Look up the user with this name and this password.
    LoadUser(String, String),
    /// Make a token with these claims.
    CreateToken(GqlLifehonClaims),
    /// Answer with this.
    Respond(Result<String, GqlError>),
}

/// The login's next action after an event: with login disabled it fails; it
/// looks up the user by name and password; a user found gets a token whose
/// id is the user's name and whose email is the user's; the token is the
/// answer. Every failure answers "Login failed!".
pub open spec fn login_step(input: LoginInput, e: LoginEvent, a: LoginAction) -> bool {
    match e {
        LoginEvent::Started { login_enabled } => if login_enabled {
            a == LoginAction::LoadUser(input.name, input.password)
        } else {
            a matches LoginAction::Respond(Err(err)) && is_plain_error(err, "Login failed!"@)
        },
        LoginEvent::UserLoaded(Ok(u)) => a == LoginAction::CreateToken(
            GqlLifehonClaims { id: u.name, email: u.email, exp: TOKEN_EXPIRATION },
        ),
        LoginEvent::UserLoaded(Err(_)) => a matches LoginAction::Respond(Err(err)) && is_plain_error(
            err,
            "Login failed!"@,
        ),
        LoginEvent::TokenCreated(Ok(t)) => a == LoginAction::Respond(Ok(t)),
        LoginEvent::TokenCreated(Err(_)) => a matches LoginAction::Respond(Err(err)) && is_plain_error(
            err,
            "Login failed!"@,
        ),
    }
}

impl LoginMutations {
    /// One step of a login through the GraphQL API.
    pub fn login_user(login_input: &LoginInput, event: LoginEvent) -> (a: LoginAction)
        ensures
            login_step(*login_input, event, a),
    {
        match event {
            LoginEvent::Started { login_enabled } => {
                if !login_enabled {
                    return LoginAction::Respond(Err(GqlError::new("Login failed!")));
                }
                LoginAction::LoadUser(login_input.name.clone(), login_input.password.clone())
            },
            LoginEvent::UserLoaded(Ok(user_model)) => LoginAction::CreateToken(
                GqlLifehonClaims::for_user(&user_model.name, &user_model.email),
            ),
            LoginEvent::UserLoaded(Err(_)) => LoginAction::Respond(Err(GqlError::new("Login failed!"))),
            LoginEvent::TokenCreated(Ok(token)) => LoginAction::Respond(Ok(token)),
            LoginEvent::TokenCreated(Err(_)) => LoginAction::Respond(Err(GqlError::new("Login failed!"))),
        }
    }
}

/// A login answers with a token only when login is enabled, a user with the
/// given name and password exists, and the token was made; the token is
/// then made from that user's name and email. In every other case it
/// answers "Login failed!".
pub proof fn lemma_login_token_needs_enabled_login_and_user(
    input: LoginInput,
    login_enabled: bool,
    user: Result<UserModel, DbError>,
    token: Result<String, TokenError>,
    a0: LoginAction,
    a1: LoginAction,
    a2: LoginAction,
)
    requires
        login_step(input, LoginEvent::Started { login_enabled }, a0),
        login_step(input, LoginEvent::UserLoaded(user), a1),
        login_step(input, LoginEvent::TokenCreated(token), a2),
    ensures
        !login_enabled ==> (a0 matches LoginAction::Respond(Err(e)) && e.message@ == "Login failed!"@
            && e.error_code is None),
        login_enabled ==> a0 == LoginAction::LoadUser(input.name, input.password),
        user matches Ok(u) ==> (a1 matches LoginAction::CreateToken(c) && c.id == u.name && c.email == u.email
            && c.exp == 100000000000000u64),
        user is Err ==> (a1 matches LoginAction::Respond(Err(e)) && e.message@ == "Login failed!"@
            && e.error_code is None),
        a2 matches LoginAction::Respond(Ok(t)) <==> token is Ok,
        token matches Ok(t) ==> a2 == LoginAction::Respond(Ok(t)),
        token is Err ==> (a2 matches LoginAction::Respond(Err(e)) && e.message@ == "Login failed!"@
            && e.error_code is None),
{
}

/// What a GraphQL registration has just learnt.
pub enum RegistrationEvent {
    /// The registration begins, with whether the site lets users register.
    Started { registration_enabled: bool },
    /// The insert of the user.
    Inserted(Result<UserModel, DbError>),
}

/// What a GraphQL registration asks for next.
pub enum RegistrationAction {
    /// Insert this row.
    Insert(NewUserRow),
    /// Answer with this.
    Respond(Result<GqlUser, GqlError>),
}

/// What adding a task through the GraphQL API has just learnt.
pub enum AddTaskEvent {
    /// The request came in, with the user its context records, if any.
    Started(Option<UserModel>),
    /// The insert of the task.
    Inserted(Result<TaskModel, DbError>),
}

/// What adding a task through the GraphQL API asks for next.
pub enum AddTaskAction {
    /// Insert this row.
    Insert(NewTaskRow),
    /// Answer with this.
    Respond(Result<GqlTask, GqlError>),
}

impl UserMutations {
    /// One step of a registration through the GraphQL API: with
    /// registration disabled it fails with "Registration failed!"; otherwise
    /// the user's row is inserted and its GraphQL view is the answer, or the
    /// registration fails with "Registration failed!".
    pub fn create_user(user_input: &UserRegistrationInput, event: RegistrationEvent) -> (a: RegistrationAction)
        ensures
            match event {
                RegistrationEvent::Started { registration_enabled } => if registration_enabled {
                    a == RegistrationAction::Insert(new_user_row_of(registration_input_of(*user_input)))
                } else {
                    a matches RegistrationAction::Respond(Err(e)) && is_plain_error(e, "Registration failed!"@)
                },
                RegistrationEvent::Inserted(Ok(u)) => a == RegistrationAction::Respond(Ok(gql_user_of(u))),
                RegistrationEvent::Inserted(Err(_)) => a matches RegistrationAction::Respond(Err(e))
                    && is_plain_error(e, "Registration failed!"@),
            },
    {
        match event {
            RegistrationEvent::Started { registration_enabled } => {
                if !registration_enabled {
                    return RegistrationAction::Respond(Err(GqlError::new("Registration failed!")));
                }
                let create_user_input = user_input.to_create_user_input();
                RegistrationAction::Insert(UserModel::new_user_row(&create_user_input))
            },
            RegistrationEvent::Inserted(Ok(created_user)) => RegistrationAction::Respond(
                Ok(created_user.convert_to_gql()),
            ),
            RegistrationEvent::Inserted(Err(_)) => RegistrationAction::Respond(
                Err(GqlError::new("Registration failed!")),
            ),
        }
    }

    /// The answer to adding a hobby to a user, given the insert: both names,
    /// or the error "Error at adding the hobby!".
    pub fn add_hobby(inserted: Result<(), DbError>, user_name: String, hobby_name: String) -> (r: Result<
        GqlAddHobbyToUserOutput,
        GqlError,
    >)
        ensures
            match inserted {
                Ok(_) => r == Ok::<GqlAddHobbyToUserOutput, GqlError>(GqlAddHobbyToUserOutput { user_name, hobby_name }),
                Err(_) => r matches Err(e) && is_plain_error(e, "Error at adding the hobby!"@),
            },
    {
        match inserted {
            Ok(_) => Ok(GqlAddHobbyToUserOutput { user_name, hobby_name }),
            Err(_) => Err(GqlError::new("Error at adding the hobby!")),
        }
    }
}

/// Adding a task through the GraphQL API at time `now`: a request whose
/// context records no user fails with "[SERVER_001] Server error!" (code
/// SERVER_001); otherwise the task is recorded under the user's email, and
/// its GraphQL view is the answer, or it fails with an empty message (code
/// "asdsad").
pub open spec fn add_task_step(input: GqlCreateTaskInput, now: i64, e: AddTaskEvent, a: AddTaskAction) -> bool {
    match e {
        AddTaskEvent::Started(None) => a matches AddTaskAction::Respond(Err(err)) && is_coded_error(
            err,
            "[SERVER_001] Server error!"@,
            "SERVER_001"@,
        ),
        AddTaskEvent::Started(Some(u)) => a matches AddTaskAction::Insert(row) && is_new_task_row(
            row,
            u.email,
            gql_task_input_of(input),
            now,
        ),
        AddTaskEvent::Inserted(Ok(t)) => a == AddTaskAction::Respond(Ok(gql_task_of(t))),
        AddTaskEvent::Inserted(Err(_)) => a matches AddTaskAction::Respond(Err(err)) && is_coded_error(
            err,
            ""@,
            "asdsad"@,
        ),
    }
}

impl TaskMutations {
    /// One step of adding a task through the GraphQL API.
    pub fn add_task(create_task_input: &GqlCreateTaskInput, now: i64, event: AddTaskEvent) -> (a: AddTaskAction)
        ensures
            add_task_step(*create_task_input, now, event, a),
    {
        match event {
            AddTaskEvent::Started(None) => AddTaskAction::Respond(Err(error_database_not_setup())),
            AddTaskEvent::Started(Some(user_model)) => {
                let input = create_task_input.to_create_task_input();
                AddTaskAction::Insert(TaskModel::new_task_row(&user_model.email, &input, now))
            },
            AddTaskEvent::Inserted(Ok(task_model)) => AddTaskAction::Respond(Ok(task_model.convert_to_gql())),
            AddTaskEvent::Inserted(Err(_)) => AddTaskAction::Respond(Err(GqlError::with_code("", "asdsad"))),
        }
    }
}

/// A registration through the GraphQL API writes a row with the name,
/// email, password and profile visibility it was given; the display name is
/// the name, login is enabled and consent is recorded.
pub proof fn lemma_gql_registration_row_keeps_input(input: UserRegistrationInput, row: NewUserRow)
    requires
        row == new_user_row_of(registration_input_of(input)),
    ensures
        row.name == input.name,
        row.display_name == input.name,
        row.email == input.email,
        row.password == input.password,
        row.public_profile == input.public_profile,
        row.login_enabled,
        row.consent,
{
}

/// Adding a task through the GraphQL API records it under the email of the
/// user the request acts as, with the name, hobby, external id, experience
/// and public flag it was given, the given times or `now`, and the given
/// description or an empty one. Without a user it fails with
/// "[SERVER_001] Server error!" (code SERVER_001).
pub proof fn lemma_add_task_records_under_context_user(
    input: GqlCreateTaskInput,
    now: i64,
    user: Option<UserModel>,
    a: AddTaskAction,
)
    requires
        add_task_step(input, now, AddTaskEvent::Started(user), a),
    ensures
        user is None ==> (a matches AddTaskAction::Respond(Err(e)) && e.message@ == "[SERVER_001] Server error!"@
            && (e.error_code matches Some(c) && c@ == "SERVER_001"@)),
        user matches Some(u) ==> (a matches AddTaskAction::Insert(row) && {
            &&& row.user_name == u.email
            &&& row.name == input.name
            &&& row.hobby_name == input.hobby_name
            &&& row.external_id == input.external_id
            &&& row.given_exp == input.given_exp
            &&& row.public == input.public
            &&& (input.description matches Some(d) ==> row.description@ == d@)
            &&& (input.description is None ==> row.description@.len() == 0)
            &&& (input.created_at matches Some(t) ==> row.created_at == t)
            &&& (input.created_at is None ==> row.created_at == now)
            &&& (input.finished_at matches Some(t) ==> row.finished_at == t)
            &&& (input.finished_at is None ==> row.finished_at == now)
        }),
{
    if let Some(u) = user {
        if let AddTaskAction::Insert(row) = a {
            lemma_new_task_row_keeps_body(row, u.email, gql_task_input_of(input), now);
        }
    }
}

} // verus!
