use vstd::prelude::*;

use crate::hobby_api::validation::ValidationFailure;
use crate::hobby_api::{is_refusal, HapiError, BAD_REQUEST, INTERNAL_SERVER_ERROR};
use crate::psql::task_psql_model::{is_new_task_row, NewTaskRow, TaskModel};
use crate::psql::DbError;
use crate::hobby_api::validation::{
    check_at_least, check_not_empty, error_if, errors_view, finish_validation, validation_result, FieldError,
    FieldErrorView,
};

verus! {

/// The body of a request that records a finished task for the calling user.
/// The times count microseconds since the Unix epoch (UTC); where one is
/// absent, the time of the insert is used.
#[derive(Debug, Clone, PartialEq, Eq)]
pub struct CreateTaskInput {
    pub name: String,
    pub hobby_name: String,
    pub external_id: String,
    pub description: Option<String>,
    pub public: bool,
    pub given_exp: i64,
    pub created_at: Option<i64>,
    pub finished_at: Option<i64>,
}

/// The rules a task body declares: name, hobby name and external id are not
/// empty and the experience given is not negative; each rule's message is
/// empty.
pub open spec fn create_task_input_errors(i: CreateTaskInput) -> Seq<FieldErrorView> {
    error_if(i.name@.len() == 0, "name"@, "length"@, Some(""@))
        + error_if(i.hobby_name@.len() == 0, "hobby_name"@, "length"@, Some(""@))
        + error_if(i.external_id@.len() == 0, "external_id"@, "length"@, Some(""@))
        + error_if(i.given_exp < 0, "given_exp"@, "range"@, Some(""@))
}

impl CreateTaskInput {
    /// Checks the declared rules; lists every field that breaks one, in the
    /// order of the fields.
    pub fn validate(&self) -> (r: Result<(), Vec<FieldError>>)
        ensures
            validation_result(create_task_input_errors(*self), r),
    {
        let mut errors: Vec<FieldError> = Vec::new();
        check_not_empty("name", &self.name, Some(""), &mut errors);
        check_not_empty("hobby_name", &self.hobby_name, Some(""), &mut errors);
        check_not_empty("external_id", &self.external_id, Some(""), &mut errors);
        check_at_least("given_exp", self.given_exp, 0, Some(""), &mut errors);
        assert(errors_view(errors@) =~= create_task_input_errors(*self));
        finish_validation(errors)
    }
}

/// What the recording of a task has just learnt.
pub enum CreateTaskEvent {
    /// The check that the user and the hobby exist.
    Validated(Result<(), ValidationFailure>),
    /// The insert of the task.
    Inserted(Result<TaskModel, DbError>),
}

/// What the recording of a task asks for next.
pub enum CreateTaskAction {
    /// Insert this row.
    Insert(NewTaskRow),
    /// Answer with this.
    Respond(Result<TaskModel, HapiError>),
}

/// One step of recording a task for the calling user `user_name` at time
/// `now`: a refused check is answered 400 with its message; a passed one
/// inserts the task's row; the inserted task is the answer, and a failed
/// insert is answered 500 "[TASK_001] Something went wrong!".
pub fn create_task(user_name: &String, new_task: &CreateTaskInput, now: i64, event: CreateTaskEvent) -> (a:
    CreateTaskAction)
    ensures
        match event {
            CreateTaskEvent::Validated(Err(f)) => a matches CreateTaskAction::Respond(Err(e)) && is_refusal(
                e,
                BAD_REQUEST,
                f.message@,
            ),
            CreateTaskEvent::Validated(Ok(_)) => a matches CreateTaskAction::Insert(row) && is_new_task_row(
                row,
                *user_name,
                *new_task,
                now,
            ),
            CreateTaskEvent::Inserted(Ok(t)) => a == CreateTaskAction::Respond(Ok(t)),
            CreateTaskEvent::Inserted(Err(_)) => a matches CreateTaskAction::Respond(Err(e)) && is_refusal(
                e,
                INTERNAL_SERVER_ERROR,
                "[TASK_001] Something went wrong!"@,
            ),
        },
{
    match event {
        CreateTaskEvent::Validated(Err(failure)) => CreateTaskAction::Respond(
            Err(HapiError { status: BAD_REQUEST, message: failure.message }),
        ),
        CreateTaskEvent::Validated(Ok(_)) => CreateTaskAction::Insert(TaskModel::new_task_row(user_name, new_task, now)),
        CreateTaskEvent::Inserted(Ok(task_model)) => CreateTaskAction::Respond(Ok(task_model)),
        CreateTaskEvent::Inserted(Err(_)) => CreateTaskAction::Respond(
            Err(HapiError::new(INTERNAL_SERVER_ERROR, "[TASK_001] Something went wrong!")),
        ),
    }
}

/// A task body passes its declared rules exactly when its name, hobby name
/// and external id are given and the experience it gives is not negative.
/// Each broken rule is reported on its field (`length` for the texts,
/// `range` for the experience) with an empty message, and no error names a
/// field that keeps its rule.
pub proof fn lemma_task_body_rules(i: CreateTaskInput, r: Result<(), Vec<FieldError>>)
    requires
        validation_result(create_task_input_errors(i), r),
    ensures
        r is Ok <==> (i.name@.len() > 0 && i.hobby_name@.len() > 0 && i.external_id@.len() > 0 && i.given_exp
            >= 0),
        i.name@.len() == 0 ==> (r matches Err(v) && exists|k: int|
            0 <= k < v@.len() && #[trigger] v@[k].field@ == "name"@ && v@[k].code@ == "length"@ && v@[k]@.message
                == Some(""@)),
        i.hobby_name@.len() == 0 ==> (r matches Err(v) && exists|k: int|
            0 <= k < v@.len() && #[trigger] v@[k].field@ == "hobby_name"@ && v@[k].code@ == "length"@
                && v@[k]@.message == Some(""@)),
        i.external_id@.len() == 0 ==> (r matches Err(v) && exists|k: int|
            0 <= k < v@.len() && #[trigger] v@[k].field@ == "external_id"@ && v@[k].code@ == "length"@
                && v@[k]@.message == Some(""@)),
        i.given_exp < 0 ==> (r matches Err(v) && exists|k: int|
            0 <= k < v@.len() && #[trigger] v@[k].field@ == "given_exp"@ && v@[k].code@ == "range"@
                && v@[k]@.message == Some(""@)),
        r matches Err(v) ==> forall|k: int|
            0 <= k < v@.len() ==> (#[trigger] v@[k].field@ == "name"@ && i.name@.len() == 0) || (v@[k].field@
                == "hobby_name"@ && i.hobby_name@.len() == 0) || (v@[k].field@ == "external_id"@
                && i.external_id@.len() == 0) || (v@[k].field@ == "given_exp"@ && i.given_exp < 0),
{
    if let Err(v) = r {
        let es = create_task_input_errors(i);
        assert(errors_view(v@) == es);
        assert forall|k: int| 0 <= k < v@.len() implies v@[k]@ == es[k] by {
            assert(errors_view(v@)[k] == v@[k]@);
        }
        let a: int = if i.name@.len() == 0 { 1 } else { 0 };
        let b: int = if i.hobby_name@.len() == 0 { 1 } else { 0 };
        let c: int = if i.external_id@.len() == 0 { 1 } else { 0 };
        if i.name@.len() == 0 {
            assert(v@[0]@ == es[0]);
        }
        if i.hobby_name@.len() == 0 {
            assert(v@[a]@ == es[a]);
        }
        if i.external_id@.len() == 0 {
            assert(v@[a + b]@ == es[a + b]);
        }
        if i.given_exp < 0 {
            assert(v@[a + b + c]@ == es[a + b + c]);
        }
    }
}

} // verus!
