use vstd::prelude::*;

use crate::hobby_api::errors::CreateUserErrors;
use crate::hobby_api::hapi_task::CreateTaskInput;
use crate::hobby_api::validation::ValidationFailure;
use crate::psql::hobby_psql_model::HobbyModel;
use crate::psql::user_psql_model::UserModel;
use crate::psql::DbError;

verus! {

/// What the check of a new task has just learnt.
pub enum TaskValidationEvent {
    /// The check begins.
    Start,
    /// The user that records the task was looked up by name.
    UserLookedUp(Result<UserModel, DbError>),
    /// The task's hobby was looked up by name.
    HobbyLookedUp(Result<HobbyModel, DbError>),
}

/// What the check of a new task asks for next.
pub enum TaskValidationAction {
    /// Look up the user with this name.
    FindUserByName(String),
    /// Look up the hobby with this name.
    FindHobbyByName(String),
    /// The check is over, with this result.
    Done(Result<(), ValidationFailure>),
}

/// Whether an action is the end of the check with exactly this result (the
/// message taken as text).
pub open spec fn task_check_done_with(a: TaskValidationAction, expected: Result<(), Seq<char>>) -> bool {
    match a {
        TaskValidationAction::Done(Ok(_)) => expected is Ok,
        TaskValidationAction::Done(Err(f)) => expected matches Err(m) && f.message@ == m,
        _ => false,
    }
}

/// The check of a new task: the user that records it must exist, then its
/// hobby. An unknown user is refused with the message of a taken user name,
/// an unknown hobby with the message of a taken email (the messages the
/// service has always answered with).
pub open spec fn task_validation_step(
    user_name: String,
    input: CreateTaskInput,
    e: TaskValidationEvent,
    a: TaskValidationAction,
) -> bool {
    match e {
        TaskValidationEvent::Start => a == TaskValidationAction::FindUserByName(user_name),
        TaskValidationEvent::UserLookedUp(Ok(_)) => a == TaskValidationAction::FindHobbyByName(input.hobby_name),
        TaskValidationEvent::UserLookedUp(Err(_)) => task_check_done_with(a, Err(CreateUserErrors::NAME_TAKEN@)),
        TaskValidationEvent::HobbyLookedUp(Ok(_)) => task_check_done_with(a, Ok(())),
        TaskValidationEvent::HobbyLookedUp(Err(_)) => task_check_done_with(a, Err(CreateUserErrors::EMAIL_TAKEN@)),
    }
}

/// One step of the check that a task may be recorded: its user and its
/// hobby exist.
pub fn validate_create_task(user_name: &String, create_task_input: &CreateTaskInput, event: TaskValidationEvent) -> (a:
    TaskValidationAction)
    ensures
        task_validation_step(*user_name, *create_task_input, event, a),
{
    match event {
        TaskValidationEvent::Start => TaskValidationAction::FindUserByName(user_name.clone()),
        TaskValidationEvent::UserLookedUp(Ok(_)) => TaskValidationAction::FindHobbyByName(
            create_task_input.hobby_name.clone(),
        ),
        TaskValidationEvent::UserLookedUp(Err(_)) => TaskValidationAction::Done(
            Err(ValidationFailure::new(CreateUserErrors::NAME_TAKEN)),
        ),
        TaskValidationEvent::HobbyLookedUp(Ok(_)) => TaskValidationAction::Done(Ok(())),
        TaskValidationEvent::HobbyLookedUp(Err(_)) => TaskValidationAction::Done(
            Err(ValidationFailure::new(CreateUserErrors::EMAIL_TAKEN)),
        ),
    }
}

/// Run to its end, the check of a new task looks up the user, then the
/// task's hobby: an unknown user refuses it with the message of a taken user
/// name, a known user with an unknown hobby with the message of a taken
/// email, and a known user with a known hobby passes.
pub proof fn lemma_task_check_runs_to_outcome(
    user_name: String,
    input: CreateTaskInput,
    user_lookup: Result<UserModel, DbError>,
    hobby_lookup: Result<HobbyModel, DbError>,
    a0: TaskValidationAction,
    a1: TaskValidationAction,
    a2: TaskValidationAction,
)
    requires
        task_validation_step(user_name, input, TaskValidationEvent::Start, a0),
        task_validation_step(user_name, input, TaskValidationEvent::UserLookedUp(user_lookup), a1),
        task_validation_step(user_name, input, TaskValidationEvent::HobbyLookedUp(hobby_lookup), a2),
    ensures
        a0 == TaskValidationAction::FindUserByName(user_name),
        user_lookup is Err ==> (a1 matches TaskValidationAction::Done(Err(f)) && f.message@
            == "[CREATE_USER_001] - the user name is already taken"@),
        user_lookup is Ok ==> a1 == TaskValidationAction::FindHobbyByName(input.hobby_name),
        hobby_lookup is Err ==> (a2 matches TaskValidationAction::Done(Err(f)) && f.message@
            == "[CREATE_USER_002] - the email is already taken"@),
        hobby_lookup is Ok ==> a2 matches TaskValidationAction::Done(Ok(_)),
{
}

} // verus!
