use vstd::prelude::*;

use crate::hobby_api::hapi_user::CreateUserInput;
use crate::hobby_api::{is_refusal, HapiError, INTERNAL_SERVER_ERROR, NO_CONTENT};
use crate::psql::user_psql_model::{new_user_row_of, NewUserRow, UserModel};
use crate::psql::DbError;

verus! {

/// A user as a hobby posts it for registration.
#[derive(Debug, Clone, PartialEq, Eq)]
pub struct CreateUser {
    pub name: String,
    pub consent: bool,
    pub public_profile: bool,
    pub email: String,
    pub password: String,
}

/// The registration body with the same fields.
pub open spec fn user_input_of(u: CreateUser) -> CreateUserInput {
    CreateUserInput {
        name: u.name,
        consent: u.consent,
        public_profile: u.public_profile,
        email: u.email,
        password: u.password,
    }
}

impl CreateUser {
    /// The registration body with the same fields.
    pub fn to_create_user_input(&self) -> (i: CreateUserInput)
        ensures
            i == user_input_of(*self),
    {
        CreateUserInput {
            name: self.name.clone(),
            consent: self.consent,
            public_profile: self.public_profile,
            email: self.email.clone(),
            password: self.password.clone(),
        }
    }
}

/// The answer to a request for a user by name, given the lookup: the user,
/// or 204 "[USER_001] user is not found!".
pub fn get_user_for_name(lookup: Result<UserModel, DbError>) -> (r: Result<UserModel, HapiError>)
    ensures
        match lookup {
            Ok(u) => r == Ok::<UserModel, HapiError>(u),
            Err(_) => r matches Err(e) && is_refusal(e, NO_CONTENT, "[USER_001] user is not found!"@),
        },
{
    match lookup {
        Ok(user_model) => Ok(user_model),
        Err(_) => Err(HapiError::new(NO_CONTENT, "[USER_001] user is not found!")),
    }
}

/// What the registration of a posted user has just learnt.
pub enum CreateUserEvent {
    /// The request came in.
    Start,
    /// The insert of the user.
    Inserted(Result<UserModel, DbError>),
}

/// What the registration of a posted user asks for next.
pub enum CreateUserAction {
    /// Insert this row.
    Insert(NewUserRow),
    /// Answer with this.
    Respond(Result<UserModel, HapiError>),
}

/// One step of registering a posted user, with no check beyond its body:
/// the user's row is inserted; the inserted user is the answer, and a failed
/// insert is answered 500 "[USER_002] Something went wrong!".
pub fn create_user(new_user: &CreateUser, event: CreateUserEvent) -> (a: CreateUserAction)
    ensures
        match event {
            CreateUserEvent::Start => a == CreateUserAction::Insert(new_user_row_of(user_input_of(*new_user))),
            CreateUserEvent::Inserted(Ok(u)) => a == CreateUserAction::Respond(Ok(u)),
            CreateUserEvent::Inserted(Err(_)) => a matches CreateUserAction::Respond(Err(e)) && is_refusal(
                e,
                INTERNAL_SERVER_ERROR,
                "[USER_002] Something went wrong!"@,
            ),
        },
{
    match event {
        CreateUserEvent::Start => {
            let input = new_user.to_create_user_input();
            CreateUserAction::Insert(UserModel::new_user_row(&input))
        },
        CreateUserEvent::Inserted(Ok(user_model)) => CreateUserAction::Respond(Ok(user_model)),
        CreateUserEvent::Inserted(Err(_)) => CreateUserAction::Respond(
            Err(HapiError::new(INTERNAL_SERVER_ERROR, "[USER_002] Something went wrong!")),
        ),
    }
}

/// A user posted for registration is written with the name, email,
/// password and profile visibility it was given; the display name is the
/// name, login is enabled and consent is recorded.
pub proof fn lemma_posted_user_row_keeps_body(u: CreateUser, row: NewUserRow)
    requires
        row == new_user_row_of(user_input_of(u)),
    ensures
        row.name == u.name,
        row.display_name == u.name,
        row.email == u.email,
        row.password == u.password,
        row.public_profile == u.public_profile,
        row.login_enabled,
        row.consent,
{
}

} // verus!
