use vstd::prelude::*;

use crate::hobby_api::{is_refusal, HapiError, BAD_REQUEST, NO_CONTENT, SERVICE_UNAVAILABLE};
use crate::psql::hobby_psql_model::HobbyModel;
use crate::psql::task_psql_model::time_or_now;
use crate::psql::DbError;

verus! {

/// The body of a request that registers a hobby. `created_at` counts
/// microseconds since the Unix epoch (UTC); where it is absent, the time of
/// the insert is used.
#[derive(Debug, Clone, PartialEq, Eq)]
pub struct CreateHobbyInput {
    pub name: String,
    pub created_at: Option<i64>,
    pub external_link: Option<String>,
    pub password: String,
}

/// The answer to a request for all hobbies, given the read: the hobbies, or
/// 204 "[HOBBY_001] Hobbies are not found".
pub fn get_all_hobbies(read: Result<Vec<HobbyModel>, DbError>) -> (r: Result<Vec<HobbyModel>, HapiError>)
    ensures
        match read {
            Ok(v) => r == Ok::<Vec<HobbyModel>, HapiError>(v),
            Err(_) => r matches Err(e) && is_refusal(e, NO_CONTENT, "[HOBBY_001] Hobbies are not found"@),
        },
{
    match read {
        Ok(hobbies) => Ok(hobbies),
        Err(_) => Err(HapiError::new(NO_CONTENT, "[HOBBY_001] Hobbies are not found")),
    }
}

/// Whether `h` is the hobby that registering `input` with `token` at time
/// `now` inserts: enabled, with no external address or callback yet.
pub open spec fn is_new_hobby(h: HobbyModel, input: CreateHobbyInput, token: String, now: i64) -> bool {
    &&& h.name == input.name
    &&& h.created_at == time_or_now(input.created_at, now)
    &&& h.enabled
    &&& h.external_url@ == Seq::<char>::empty()
    &&& h.create_user_callback@ == Seq::<char>::empty()
    &&& h.token == token
}

/// What the registration of a hobby has just learnt.
pub enum CreateHobbyEvent {
    /// The hobby's token was issued, or could not be (with the status of
    /// the failure).
    TokenIssued(Result<String, u16>),
    /// The insert of the hobby.
    Inserted(Result<HobbyModel, DbError>),
}

/// What the registration of a hobby asks for next.
pub enum CreateHobbyAction {
    /// Insert this hobby.
    Insert(HobbyModel),
    /// Answer with this.
    Respond(Result<HobbyModel, HapiError>),
}

/// One step of registering a hobby at time `now`: without a token it is
/// answered 503 "Something went wrong..."; with one, the hobby is inserted;
/// the inserted hobby is the answer, and a failed insert is answered 400
/// "The hobby was not created!".
pub fn create_hobby(new_hobby: &CreateHobbyInput, now: i64, event: CreateHobbyEvent) -> (a: CreateHobbyAction)
    ensures
        match event {
            CreateHobbyEvent::TokenIssued(Err(_)) => a matches CreateHobbyAction::Respond(Err(e)) && is_refusal(
                e,
                SERVICE_UNAVAILABLE,
                "Something went wrong..."@,
            ),
            CreateHobbyEvent::TokenIssued(Ok(t)) => a matches CreateHobbyAction::Insert(h) && is_new_hobby(
                h,
                *new_hobby,
                t,
                now,
            ),
            CreateHobbyEvent::Inserted(Ok(h)) => a == CreateHobbyAction::Respond(Ok(h)),
            CreateHobbyEvent::Inserted(Err(_)) => a matches CreateHobbyAction::Respond(Err(e)) && is_refusal(
                e,
                BAD_REQUEST,
                "The hobby was not created!"@,
            ),
        },
{
    match event {
        CreateHobbyEvent::TokenIssued(Err(_)) => CreateHobbyAction::Respond(
            Err(HapiError::new(SERVICE_UNAVAILABLE, "Something went wrong...")),
        ),
        CreateHobbyEvent::TokenIssued(Ok(token)) => {
            let created_at = match new_hobby.created_at {
                Some(t) => t,
                None => now,
            };
            CreateHobbyAction::Insert(
                HobbyModel {
                    name: new_hobby.name.clone(),
                    created_at,
                    enabled: true,
                    external_url: String::new(),
                    create_user_callback: String::new(),
                    token,
                },
            )
        },
        CreateHobbyEvent::Inserted(Ok(hobby)) => CreateHobbyAction::Respond(Ok(hobby)),
        CreateHobbyEvent::Inserted(Err(_)) => CreateHobbyAction::Respond(
            Err(HapiError::new(BAD_REQUEST, "The hobby was not created!")),
        ),
    }
}

/// A registered hobby keeps its name and the token it was issued, is
/// enabled, and has the creation time it gave; only where it gave none is
/// it created at `now`.
pub proof fn lemma_new_hobby_keeps_body(h: HobbyModel, input: CreateHobbyInput, token: String, now: i64)
    requires
        is_new_hobby(h, input, token, now),
    ensures
        h.name == input.name,
        h.token == token,
        h.enabled,
        input.created_at matches Some(t) ==> h.created_at == t,
        input.created_at is None ==> h.created_at == now,
        h.external_url@.len() == 0,
        h.create_user_callback@.len() == 0,
{
}

} // verus!
