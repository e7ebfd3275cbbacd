use vstd::prelude::*;

use crate::front_api::gql_auth::{GqlLifehonClaims, Token, TokenError};
use crate::hobby_api::validation::{
    check_not_empty, error_if, errors_view, finish_validation, validation_result, FieldError, FieldErrorView,
};
use crate::hobby_api::{is_refusal, HapiError, UNAUTHORIZED};
use crate::psql::user_psql_model::UserModel;
use crate::psql::DbError;

verus! {

/// The body of a login request.
#[derive(Debug, Clone, PartialEq, Eq)]
pub struct LoginInput {
    pub user_name: String,
    pub password: String,
}

/// The body of a request that checks a login token.
#[derive(Debug, Clone, PartialEq, Eq)]
pub struct CheckTokenInput {
    pub token: String,
}

/// The answer to a successful login: the token.
#[derive(Debug, Clone, PartialEq, Eq)]
pub struct SuccessLogin {
    pub token: String,
}

/// What a valid token says of its user: the user's name and the id the token
/// was issued for, and whether the profile is public.
#[derive(Debug, Clone, PartialEq, Eq)]
pub struct UserInfo {
    pub user_name: String,
    pub id: String,
    pub public_profile: bool,
}

/// The rules of a login body: name and password are not empty.
pub open spec fn login_input_errors(i: LoginInput) -> Seq<FieldErrorView> {
    error_if(i.user_name@.len() == 0, "user_name"@, "length"@, Some("[LOGIN_001] - the name is empty"@))
        + error_if(i.password@.len() == 0, "password"@, "length"@, Some("[LOGIN_002] - the password is empty"@))
}

/// The rule of a token body: the token is not empty.
pub open spec fn check_token_input_errors(i: CheckTokenInput) -> Seq<FieldErrorView> {
    error_if(i.token@.len() == 0, "token"@, "length"@, Some("[LOGIN_005] - Bad token"@))
}

impl LoginInput {
    /// Checks the declared rules; lists every field that breaks one, in the
    /// order of the fields.
    pub fn validate(&self) -> (r: Result<(), Vec<FieldError>>)
        ensures
            validation_result(login_input_errors(*self), r),
    {
        let mut errors: Vec<FieldError> = Vec::new();
        check_not_empty("user_name", &self.user_name, Some("[LOGIN_001] - the name is empty"), &mut errors);
        check_not_empty("password", &self.password, Some("[LOGIN_002] - the password is empty"), &mut errors);
        assert(errors_view(errors@) =~= login_input_errors(*self));
        finish_validation(errors)
    }
}

impl CheckTokenInput {
    /// Checks the declared rule.
    pub fn validate(&self) -> (r: Result<(), Vec<FieldError>>)
        ensures
            validation_result(check_token_input_errors(*self), r),
    {
        let mut errors: Vec<FieldError> = Vec::new();
        check_not_empty("token", &self.token, Some("[LOGIN_005] - Bad token"), &mut errors);
        assert(errors_view(errors@) =~= check_token_input_errors(*self));
        finish_validation(errors)
    }
}

/// The answer to a token check, given what reading the token gives: the
/// user the token was issued for (its id names the user), with a public
/// profile; 401 "[LOGIN_005] Bad token" where the token does not read.
pub fn check_token(decoded: Result<GqlLifehonClaims, TokenError>) -> (r: Result<UserInfo, HapiError>)
    ensures
        match decoded {
            Ok(c) => r matches Ok(info) && info.user_name == c.id && info.id == c.id && info.public_profile,
            Err(_) => r matches Err(e) && is_refusal(e, UNAUTHORIZED, "[LOGIN_005] Bad token"@),
        },
{
    match decoded {
        Ok(claims) => Ok(UserInfo { user_name: claims.id.clone(), id: claims.id, public_profile: true }),
        Err(_) => Err(HapiError::new(UNAUTHORIZED, "[LOGIN_005] Bad token")),
    }
}

/// What the authentication of a hobby-API request records on it.
#[derive(Debug, Clone, PartialEq, Eq)]
pub struct HapiRequestData {
    pub claims: Option<GqlLifehonClaims>,
    pub user: Option<UserModel>,
}

/// What the authentication of a hobby-API request has just learnt.
pub enum HapiAuthEvent {
    /// A request came in, with the value of its `authorization` header.
    Request(Option<Token>),
    /// The token was read, or could not be.
    Decoded(Result<GqlLifehonClaims, TokenError>),
    /// The user named by the claims' email was looked up.
    UserLoaded(GqlLifehonClaims, Result<UserModel, DbError>),
}

/// What the authentication of a hobby-API request asks for next.
pub enum HapiAuthAction {
    /// Refuse the request with this status.
    Reject(u16),
    /// Read this token.
    DecodeToken(Token),
    /// Look up the user whose email the claims state.
    LoadUserByEmail(GqlLifehonClaims),
    /// Record this on the request and let it go on.
    Proceed(HapiRequestData),
}

/// The authentication's next action after an event: a request without a
/// token is refused with 401; a token is read; readable claims lead to a
/// lookup of the user; a user that exists is recorded with the claims; a
/// token that does not read, or names no user, lets the request go on with
/// nothing recorded.
pub open spec fn hapi_auth_action(e: HapiAuthEvent) -> HapiAuthAction {
    match e {
        HapiAuthEvent::Request(None) => HapiAuthAction::Reject(UNAUTHORIZED),
        HapiAuthEvent::Request(Some(t)) => HapiAuthAction::DecodeToken(t),
        HapiAuthEvent::Decoded(Ok(c)) => HapiAuthAction::LoadUserByEmail(c),
        HapiAuthEvent::Decoded(Err(_)) => HapiAuthAction::Proceed(HapiRequestData { claims: None, user: None }),
        HapiAuthEvent::UserLoaded(c, Ok(u)) => HapiAuthAction::Proceed(HapiRequestData { claims: Some(c), user: Some(u) }),
        HapiAuthEvent::UserLoaded(_, Err(_)) => HapiAuthAction::Proceed(HapiRequestData { claims: None, user: None }),
    }
}

/// One step of the authentication of a hobby-API request.
pub fn auth_middleware(event: HapiAuthEvent) -> (a: HapiAuthAction)
    ensures
        a == hapi_auth_action(event),
{
    match event {
        HapiAuthEvent::Request(None) => HapiAuthAction::Reject(UNAUTHORIZED),
        HapiAuthEvent::Request(Some(t)) => HapiAuthAction::DecodeToken(t),
        HapiAuthEvent::Decoded(Ok(c)) => HapiAuthAction::LoadUserByEmail(c),
        HapiAuthEvent::Decoded(Err(_)) => HapiAuthAction::Proceed(HapiRequestData { claims: None, user: None }),
        HapiAuthEvent::UserLoaded(c, Ok(u)) => HapiAuthAction::Proceed(HapiRequestData { claims: Some(c), user: Some(u) }),
        HapiAuthEvent::UserLoaded(_, Err(_)) => HapiAuthAction::Proceed(HapiRequestData { claims: None, user: None }),
    }
}

/// The outcome of the authentication of a hobby-API request, given the
/// header it came with, what reading the token gives and what the user
/// lookup gives: refused with a status, or let through with what it
/// records.
pub open spec fn hapi_auth_outcome(
    token: Option<Token>,
    decoded: Result<GqlLifehonClaims, TokenError>,
    user: Result<UserModel, DbError>,
) -> Result<HapiRequestData, u16> {
    match hapi_auth_action(HapiAuthEvent::Request(token)) {
        HapiAuthAction::Reject(s) => Err(s),
        _ => match hapi_auth_action(HapiAuthEvent::Decoded(decoded)) {
            HapiAuthAction::Proceed(d) => Ok(d),
            HapiAuthAction::LoadUserByEmail(c) => match hapi_auth_action(HapiAuthEvent::UserLoaded(c, user)) {
                HapiAuthAction::Proceed(d) => Ok(d),
                _ => Ok(HapiRequestData { claims: None, user: None }),
            },
            _ => Ok(HapiRequestData { claims: None, user: None }),
        },
    }
}

/// A hobby-API request without a token is refused with 401; one with a token
/// always goes on, and carries a user exactly when the token reads and the
/// user its email names exists.
pub proof fn lemma_hapi_auth_refuses_only_missing_token(
    token: Option<Token>,
    decoded: Result<GqlLifehonClaims, TokenError>,
    user: Result<UserModel, DbError>,
)
    ensures
        token is None <==> hapi_auth_outcome(token, decoded, user) == Err::<HapiRequestData, u16>(UNAUTHORIZED),
        token is Some ==> (hapi_auth_outcome(token, decoded, user) matches Ok(d) && (d.user is Some <==> (
        decoded is Ok && user is Ok))),
        token is Some && decoded is Ok && user is Ok ==> (hapi_auth_outcome(token, decoded, user) matches Ok(d)
            && d.claims == Some(decoded->Ok_0) && d.user == Some(user->Ok_0)),
        token is Some && !(decoded is Ok && user is Ok) ==> (hapi_auth_outcome(token, decoded, user) matches Ok(d)
            && d.claims is None && d.user is None),
{
}

/// A login body passes exactly when name and password are given. Each
/// missing one is reported as a `length` error on its field with its own
/// message, and no error names a field that was given.
pub proof fn lemma_login_body_needs_name_and_password(i: LoginInput, r: Result<(), Vec<FieldError>>)
    requires
        validation_result(login_input_errors(i), r),
    ensures
        r is Ok <==> (i.user_name@.len() > 0 && i.password@.len() > 0),
        i.user_name@.len() == 0 ==> (r matches Err(v) && exists|k: int|
            0 <= k < v@.len() && #[trigger] v@[k].field@ == "user_name"@ && v@[k].code@ == "length"@
                && v@[k]@.message == Some("[LOGIN_001] - the name is empty"@)),
        i.password@.len() == 0 ==> (r matches Err(v) && exists|k: int|
            0 <= k < v@.len() && #[trigger] v@[k].field@ == "password"@ && v@[k].code@ == "length"@
                && v@[k]@.message == Some("[LOGIN_002] - the password is empty"@)),
        r matches Err(v) ==> forall|k: int|
            0 <= k < v@.len() ==> (#[trigger] v@[k].field@ == "user_name"@ && i.user_name@.len() == 0) || (
            v@[k].field@ == "password"@ && i.password@.len() == 0),
{
    if let Err(v) = r {
        let es = login_input_errors(i);
        assert(errors_view(v@) == es);
        assert forall|k: int| 0 <= k < v@.len() implies v@[k]@ == es[k] by {
            assert(errors_view(v@)[k] == v@[k]@);
        }
        let n: int = if i.user_name@.len() == 0 { 1 } else { 0 };
        if i.user_name@.len() == 0 {
            assert(v@[0]@ == es[0]);
        }
        if i.password@.len() == 0 {
            assert(v@[n]@ == es[n]);
        }
    }
}

/// A token body passes exactly when the token is given; an empty one is
/// reported as a `length` error on `token` with "[LOGIN_005] - Bad token",
/// and that is the only error.
pub proof fn lemma_token_body_needs_token(i: CheckTokenInput, r: Result<(), Vec<FieldError>>)
    requires
        validation_result(check_token_input_errors(i), r),
    ensures
        r is Ok <==> i.token@.len() > 0,
        r matches Err(v) ==> v@.len() == 1 && v@[0].field@ == "token"@ && v@[0].code@ == "length"@
            && v@[0]@.message == Some("[LOGIN_005] - Bad token"@),
{
    if let Err(v) = r {
        assert(errors_view(v@)[0] == v@[0]@);
    }
}

} // verus!
