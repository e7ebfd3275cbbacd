use vstd::prelude::*;

use crate::front_api::gql_guards::Role;
use crate::psql::user_psql_model::UserModel;
use crate::psql::DbError;

verus! {

/// The raw value of an `authorization` header.
#[derive(Debug, Clone, PartialEq, Eq)]
pub struct Token(pub String);

/// What a login token states: the id it was issued for (the user's name),
/// the user's email, and when it expires (seconds since the Unix epoch).
#[derive(Debug, Clone, PartialEq, Eq)]
pub struct GqlLifehonClaims {
    pub id: String,
    pub email: String,
    pub exp: u64,
}

/// The expiry written into every token the service issues.
pub const TOKEN_EXPIRATION: u64 = 100000000000000;

/// Why a token could not be read (a bad signature, a malformed token, an
/// expired one).
#[derive(Debug, Clone, PartialEq, Eq)]
pub struct TokenError {
    pub message: String,
}

impl GqlLifehonClaims {
    /// The claims of a token issued for `id` and `email`; it expires at
    /// [`TOKEN_EXPIRATION`].
    pub fn for_user(id: &String, email: &String) -> (c: Self)
        ensures
            c.id == *id,
            c.email == *email,
            c.exp == TOKEN_EXPIRATION,
    {
        GqlLifehonClaims { id: id.clone(), email: email.clone(), exp: TOKEN_EXPIRATION }
    }
}

/// What the authentication of a GraphQL request records on it before the
/// request goes on.
#[derive(Debug, Clone, PartialEq, Eq)]
pub struct GqlRequestData {
    pub role: Option<Role>,
    pub claims: Option<GqlLifehonClaims>,
    pub user: Option<UserModel>,
}

/// What the authentication has just learnt.
pub enum GqlAuthEvent {
    /// A request came in, with the value of its `authorization` header.
    Request(Option<Token>),
    /// The token was read, or could not be.
    Decoded(Result<GqlLifehonClaims, TokenError>),
    /// The user named by the claims' email was looked up.
    UserLoaded(GqlLifehonClaims, Result<UserModel, DbError>),
}

/// What the authentication asks for next.
pub enum GqlAuthAction {
    /// Read this token.
    DecodeToken(Token),
    /// Look up the user whose email the claims state.
    LoadUserByEmail(GqlLifehonClaims),
    /// Record this on the request and let it go on.
    Proceed(GqlRequestData),
}

/// The data of a request that acts anonymously.
pub open spec fn anon_request_data() -> GqlRequestData {
    GqlRequestData { role: Some(Role::Anon), claims: None, user: None }
}

/// The data of a request that carries no record at all.
pub open spec fn empty_request_data() -> GqlRequestData {
    GqlRequestData { role: None, claims: None, user: None }
}

/// The authentication's next action after an event: a request without a
/// token acts anonymously; a token is read; a token that cannot be read
/// makes the request anonymous; readable claims lead to a lookup of the user
/// by email; a user that exists makes the request act as that user, with its
/// claims; a user that does not exist leaves the request without a role.
pub open spec fn gql_auth_action(e: GqlAuthEvent) -> GqlAuthAction {
    match e {
        GqlAuthEvent::Request(None) => GqlAuthAction::Proceed(anon_request_data()),
        GqlAuthEvent::Request(Some(t)) => GqlAuthAction::DecodeToken(t),
        GqlAuthEvent::Decoded(Ok(c)) => GqlAuthAction::LoadUserByEmail(c),
        GqlAuthEvent::Decoded(Err(_)) => GqlAuthAction::Proceed(anon_request_data()),
        GqlAuthEvent::UserLoaded(c, Ok(u)) => GqlAuthAction::Proceed(
            GqlRequestData { role: Some(Role::User), claims: Some(c), user: Some(u) },
        ),
        GqlAuthEvent::UserLoaded(_, Err(_)) => GqlAuthAction::Proceed(empty_request_data()),
    }
}

/// The data a request ends up with, given the header it came with, what
/// reading the token gives and what the user lookup gives (each used only
/// where the authentication gets that far).
pub open spec fn gql_auth_outcome(
    token: Option<Token>,
    decoded: Result<GqlLifehonClaims, TokenError>,
    user: Result<UserModel, DbError>,
) -> GqlRequestData {
    match gql_auth_action(GqlAuthEvent::Request(token)) {
        GqlAuthAction::Proceed(d) => d,
        _ => match gql_auth_action(GqlAuthEvent::Decoded(decoded)) {
            GqlAuthAction::Proceed(d) => d,
            GqlAuthAction::LoadUserByEmail(c) => match gql_auth_action(GqlAuthEvent::UserLoaded(c, user)) {
                GqlAuthAction::Proceed(d) => d,
                _ => empty_request_data(),
            },
            _ => empty_request_data(),
        },
    }
}

/// One step of the authentication of a GraphQL request.
pub fn gql_auth_middleware(event: GqlAuthEvent) -> (a: GqlAuthAction)
    ensures
        a == gql_auth_action(event),
{
    match event {
        GqlAuthEvent::Request(None) => GqlAuthAction::Proceed(
            GqlRequestData { role: Some(Role::Anon), claims: None, user: None },
        ),
        GqlAuthEvent::Request(Some(t)) => GqlAuthAction::DecodeToken(t),
        GqlAuthEvent::Decoded(Ok(c)) => GqlAuthAction::LoadUserByEmail(c),
        GqlAuthEvent::Decoded(Err(_)) => GqlAuthAction::Proceed(
            GqlRequestData { role: Some(Role::Anon), claims: None, user: None },
        ),
        GqlAuthEvent::UserLoaded(c, Ok(u)) => GqlAuthAction::Proceed(
            GqlRequestData { role: Some(Role::User), claims: Some(c), user: Some(u) },
        ),
        GqlAuthEvent::UserLoaded(_, Err(_)) => GqlAuthAction::Proceed(
            GqlRequestData { role: None, claims: None, user: None },
        ),
    }
}

/// A request acts as a logged-in user exactly when it carries a token, the
/// token reads, and the user its email names exists; it then carries the
/// token's claims and that user.
pub proof fn lemma_user_role_needs_valid_token_and_user(
    token: Option<Token>,
    decoded: Result<GqlLifehonClaims, TokenError>,
    user: Result<UserModel, DbError>,
)
    ensures
        gql_auth_outcome(token, decoded, user).role == Some(Role::User) <==> (token is Some && decoded is Ok
            && user is Ok),
        gql_auth_outcome(token, decoded, user).role == Some(Role::User) ==> gql_auth_outcome(
            token,
            decoded,
            user,
        ).claims == Some(decoded->Ok_0) && gql_auth_outcome(token, decoded, user).user == Some(user->Ok_0),
{
}

/// A request without a token, or with one that does not read, acts
/// anonymously and carries no claims and no user.
pub proof fn lemma_missing_or_bad_token_is_anonymous(
    token: Option<Token>,
    decoded: Result<GqlLifehonClaims, TokenError>,
    user: Result<UserModel, DbError>,
)
    requires
        token is None || decoded is Err,
    ensures
        gql_auth_outcome(token, decoded, user).role == Some(Role::Anon),
        gql_auth_outcome(token, decoded, user).claims is None,
        gql_auth_outcome(token, decoded, user).user is None,
{
}

/// A request whose token reads but names no existing user goes on with no
/// role, no claims and no user recorded.
pub proof fn lemma_unknown_user_gets_no_role(
    token: Token,
    claims: GqlLifehonClaims,
    user: Result<UserModel, DbError>,
)
    requires
        user is Err,
    ensures
        gql_auth_outcome(Some(token), Ok(claims), user).role is None,
        gql_auth_outcome(Some(token), Ok(claims), user).claims is None,
        gql_auth_outcome(Some(token), Ok(claims), user).user is None,
{
}

} // verus!
