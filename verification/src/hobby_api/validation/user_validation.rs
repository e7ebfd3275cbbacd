use vstd::prelude::*;

use crate::hobby_api::errors::CreateUserErrors;
use crate::hobby_api::hapi_user::CreateUserInput;
use crate::hobby_api::validation::ValidationFailure;
use crate::psql::user_psql_model::UserModel;
use crate::psql::DbError;

verus! {

/// What the check of a registration has just learnt.
pub enum UserValidationEvent {
    /// The check begins.
    Start,
    /// The user with the registration's name was looked up.
    NameLookedUp(Result<UserModel, DbError>),
    /// The user with the registration's email was looked up.
    EmailLookedUp(Result<UserModel, DbError>),
}

/// What the check of a registration asks for next.
pub enum UserValidationAction {
    /// Look up the user with this name.
    FindUserByName(String),
    /// Look up the user with this email.
    FindUserByEmail(String),
    /// The check is over, with this result.
    Done(Result<(), ValidationFailure>),
}

/// Whether an action is the end of the check with exactly this result (the
/// message taken as text).
pub open spec fn is_done_with(a: UserValidationAction, expected: Result<(), Seq<char>>) -> bool {
    match a {
        UserValidationAction::Done(Ok(_)) => expected is Ok,
        UserValidationAction::Done(Err(f)) => expected matches Err(m) && f.message@ == m,
        _ => false,
    }
}

/// The check of a registration: without consent it is refused; otherwise a
/// taken name refuses it, then a taken email; a registration that passes all
/// three is accepted.
pub open spec fn user_validation_step(input: CreateUserInput, e: UserValidationEvent, a: UserValidationAction) -> bool {
    match e {
        UserValidationEvent::Start => if !input.consent {
            is_done_with(a, Err(CreateUserErrors::CONSENT_NOT_AGREED@))
        } else {
            a == UserValidationAction::FindUserByName(input.name)
        },
        UserValidationEvent::NameLookedUp(Ok(_)) => is_done_with(a, Err(CreateUserErrors::NAME_TAKEN@)),
        UserValidationEvent::NameLookedUp(Err(_)) => a == UserValidationAction::FindUserByEmail(input.email),
        UserValidationEvent::EmailLookedUp(Ok(_)) => is_done_with(a, Err(CreateUserErrors::EMAIL_TAKEN@)),
        UserValidationEvent::EmailLookedUp(Err(_)) => is_done_with(a, Ok(())),
    }
}

/// The result of the whole check, given what each lookup gives (each used
/// only where the check gets that far).
pub open spec fn user_validation_outcome(consent: bool, name_taken: bool, email_taken: bool) -> Result<(), Seq<char>> {
    if !consent {
        Err(CreateUserErrors::CONSENT_NOT_AGREED@)
    } else if name_taken {
        Err(CreateUserErrors::NAME_TAKEN@)
    } else if email_taken {
        Err(CreateUserErrors::EMAIL_TAKEN@)
    } else {
        Ok(())
    }
}

/// One step of the check that a registration may go ahead (consent given,
/// name and email not taken).
pub fn validate_user(create_user_input: &CreateUserInput, event: UserValidationEvent) -> (a: UserValidationAction)
    ensures
        user_validation_step(*create_user_input, event, a),
{
    match event {
        UserValidationEvent::Start => {
            if !create_user_input.consent {
                return UserValidationAction::Done(Err(ValidationFailure::new(CreateUserErrors::CONSENT_NOT_AGREED)));
            }
            UserValidationAction::FindUserByName(create_user_input.name.clone())
        },
        UserValidationEvent::NameLookedUp(Ok(_)) => UserValidationAction::Done(
            Err(ValidationFailure::new(CreateUserErrors::NAME_TAKEN)),
        ),
        UserValidationEvent::NameLookedUp(Err(_)) => UserValidationAction::FindUserByEmail(create_user_input.email.clone()),
        UserValidationEvent::EmailLookedUp(Ok(_)) => UserValidationAction::Done(
            Err(ValidationFailure::new(CreateUserErrors::EMAIL_TAKEN)),
        ),
        UserValidationEvent::EmailLookedUp(Err(_)) => UserValidationAction::Done(Ok(())),
    }
}

/// Run to its end, the check of a registration gives
/// [`user_validation_outcome`]: each step asks for the next lookup in turn
/// and ends with that result.
pub proof fn lemma_user_validation_runs_to_outcome(
    input: CreateUserInput,
    name_lookup: Result<UserModel, DbError>,
    email_lookup: Result<UserModel, DbError>,
    a0: UserValidationAction,
    a1: UserValidationAction,
    a2: UserValidationAction,
)
    requires
        user_validation_step(input, UserValidationEvent::Start, a0),
        user_validation_step(input, UserValidationEvent::NameLookedUp(name_lookup), a1),
        user_validation_step(input, UserValidationEvent::EmailLookedUp(email_lookup), a2),
    ensures
        !input.consent ==> is_done_with(a0, user_validation_outcome(input.consent, name_lookup is Ok, email_lookup is Ok)),
        input.consent ==> a0 == UserValidationAction::FindUserByName(input.name),
        input.consent && name_lookup is Ok ==> is_done_with(a1, user_validation_outcome(input.consent, true, email_lookup is Ok)),
        input.consent && name_lookup is Err ==> a1 == UserValidationAction::FindUserByEmail(input.email)
            && is_done_with(a2, user_validation_outcome(input.consent, false, email_lookup is Ok)),
{
}

/// The check of a registration refuses it without consent, before any
/// lookup; with consent it looks up the name, refusing a taken one, then the
/// email, refusing a taken one; a registration with a free name and a free
/// email passes.
pub proof fn lemma_user_check_messages(
    input: CreateUserInput,
    name_lookup: Result<UserModel, DbError>,
    email_lookup: Result<UserModel, DbError>,
    a0: UserValidationAction,
    a1: UserValidationAction,
    a2: UserValidationAction,
)
    requires
        user_validation_step(input, UserValidationEvent::Start, a0),
        user_validation_step(input, UserValidationEvent::NameLookedUp(name_lookup), a1),
        user_validation_step(input, UserValidationEvent::EmailLookedUp(email_lookup), a2),
    ensures
        !input.consent ==> (a0 matches UserValidationAction::Done(Err(f)) && f.message@
            == "[CREATE_USER_006] - the consent is not agreed"@),
        input.consent ==> a0 == UserValidationAction::FindUserByName(input.name),
        name_lookup is Ok ==> (a1 matches UserValidationAction::Done(Err(f)) && f.message@
            == "[CREATE_USER_001] - the user name is already taken"@),
        name_lookup is Err ==> a1 == UserValidationAction::FindUserByEmail(input.email),
        email_lookup is Ok ==> (a2 matches UserValidationAction::Done(Err(f)) && f.message@
            == "[CREATE_USER_002] - the email is already taken"@),
        email_lookup is Err ==> a2 matches UserValidationAction::Done(Ok(_)),
{
}

} // verus!
