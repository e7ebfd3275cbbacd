use vstd::prelude::*;

use crate::front_api::gql_auth::{GqlLifehonClaims, TokenError};
use crate::front_api::gql_models::{GqlHobby, GqlUser};
use crate::front_api::utils::GqlError;
use crate::psql::hobby_psql_model::{gql_hobby_of, HobbyModel};
use crate::psql::user_psql_model::{gql_user_of, UserModel};
use crate::psql::DbError;

verus! {

/// The queries on users.
#[derive(Debug, Default, Clone, Copy, PartialEq, Eq)]
pub struct UserQuery;

/// The queries on hobbies.
#[derive(Debug, Default, Clone, Copy, PartialEq, Eq)]
pub struct HobbyQuery;

/// The query that checks a login token.
#[derive(Debug, Default, Clone, Copy, PartialEq, Eq)]
pub struct LoginQuery;

/// The root of the GraphQL queries: those on users and those on hobbies.
#[derive(Debug, Default, Clone, Copy, PartialEq, Eq)]
pub struct Query(pub UserQuery, pub HobbyQuery);

/// Whether `e` is the error with this message and no extension.
pub open spec fn is_plain_error(e: GqlError, message: Seq<char>) -> bool {
    e.message@ == message && e.error_code is None
}

impl UserQuery {
    /// The answer to the list of all users, given its read: their GraphQL
    /// views, or the error "Users not found, error encountered".
    pub fn users(read: Result<Vec<UserModel>, DbError>) -> (r: Result<Vec<GqlUser>, GqlError>)
        ensures
            match read {
                Ok(v) => r matches Ok(g) && g@ == v@.map_values(|m: UserModel| gql_user_of(m)),
                Err(_) => r matches Err(e) && is_plain_error(e, "Users not found, error encountered"@),
            },
    {
        match read {
            Ok(users) => Ok(UserModel::convert_all_to_gql(&users)),
            Err(_) => Err(GqlError::new("Users not found, error encountered")),
        }
    }

    /// The answer to a user looked up by name: its GraphQL view, or the
    /// error "User not found, error encountered".
    pub fn get_user_for_name(lookup: Result<UserModel, DbError>) -> (r: Result<GqlUser, GqlError>)
        ensures
            match lookup {
                Ok(u) => r == Ok::<GqlUser, GqlError>(gql_user_of(u)),
                Err(_) => r matches Err(e) && is_plain_error(e, "User not found, error encountered"@),
            },
    {
        match lookup {
            Ok(user) => Ok(user.convert_to_gql()),
            Err(_) => Err(GqlError::new("User not found, error encountered")),
        }
    }
}

impl HobbyQuery {
    /// The answer to the list of all hobbies, given its read: their GraphQL
    /// views, or the error "Cannot find hobbies".
    pub fn hobbies(read: Result<Vec<HobbyModel>, DbError>) -> (r: Result<Vec<GqlHobby>, GqlError>)
        ensures
            match read {
                Ok(v) => r matches Ok(g) && g@ == v@.map_values(|m: HobbyModel| gql_hobby_of(m)),
                Err(_) => r matches Err(e) && is_plain_error(e, "Cannot find hobbies"@),
            },
    {
        match read {
            Ok(hobby_models) => Ok(HobbyModel::convert_all_to_gql(&hobby_models)),
            Err(_) => Err(GqlError::new("Cannot find hobbies")),
        }
    }
}

/// What the check of a login token has just learnt.
pub enum CheckTokenEvent {
    /// The check begins, with whether the site lets users log in.
    Started { login_enabled: bool },
    /// The token was read, or could not be.
    Decoded(Result<GqlLifehonClaims, TokenError>),
    /// The user the token names was looked up.
    UserLoaded(Result<UserModel, DbError>),
}

/// What the check of a login token asks for next.
pub enum CheckTokenAction {
    /// Read the token.
    DecodeToken,
    /// Look up the user with this name.
    LoadUserByName(String),
    /// Answer with this.
    Respond(Result<GqlUser, GqlError>),
}

impl LoginQuery {
    /// One step of the check of a login token: with login disabled it fails
    /// with "Login failed!"; a token that does not read fails with "Token is
    /// invalid!"; otherwise the user the token's id names is looked up, and
    /// is the answer, or the check fails with "Token is wrong!".
    pub fn check_token(event: CheckTokenEvent) -> (a: CheckTokenAction)
        ensures
            match event {
                CheckTokenEvent::Started { login_enabled } => if login_enabled {
                    a == CheckTokenAction::DecodeToken
                } else {
                    a matches CheckTokenAction::Respond(Err(e)) && is_plain_error(e, "Login failed!"@)
                },
                CheckTokenEvent::Decoded(Ok(c)) => a == CheckTokenAction::LoadUserByName(c.id),
                CheckTokenEvent::Decoded(Err(_)) => a matches CheckTokenAction::Respond(Err(e)) && is_plain_error(
                    e,
                    "Token is invalid!"@,
                ),
                CheckTokenEvent::UserLoaded(Ok(u)) => a == CheckTokenAction::Respond(Ok(gql_user_of(u))),
                CheckTokenEvent::UserLoaded(Err(_)) => a matches CheckTokenAction::Respond(Err(e)) && is_plain_error(
                    e,
                    "Token is wrong!"@,
                ),
            },
    {
        match event {
            CheckTokenEvent::Started { login_enabled } => {
                if !login_enabled {
                    return CheckTokenAction::Respond(Err(GqlError::new("Login failed!")));
                }
                CheckTokenAction::DecodeToken
            },
            CheckTokenEvent::Decoded(Ok(claims)) => CheckTokenAction::LoadUserByName(claims.id),
            CheckTokenEvent::Decoded(Err(_)) => CheckTokenAction::Respond(Err(GqlError::new("Token is invalid!"))),
            CheckTokenEvent::UserLoaded(Ok(user_model)) => CheckTokenAction::Respond(Ok(user_model.convert_to_gql())),
            CheckTokenEvent::UserLoaded(Err(_)) => CheckTokenAction::Respond(Err(GqlError::new("Token is wrong!"))),
        }
    }
}

/// A plain error carries exactly the given message and no extension.
pub proof fn lemma_plain_error_has_message(e: GqlError, message: Seq<char>)
    requires
        is_plain_error(e, message),
    ensures
        e.message@ == message,
        e.error_code is None,
{
}

} // verus!
