use vstd::prelude::*;

use crate::hobby_api::hapi_task::CreateTaskInput;
use crate::hobby_api::{is_refusal, HapiError, INTERNAL_SERVER_ERROR};
use crate::psql::task_psql_model::{is_new_task_row, lemma_new_task_row_keeps_body, NewTaskRow, TaskModel};
use crate::psql::DbError;

verus! {

/// A task as a hobby posts it for a user named in the path. The times count
/// microseconds since the Unix epoch (UTC).
#[derive(Debug, Clone, PartialEq, Eq)]
pub struct CreateTask {
    pub user_name: String,
    pub hobby_name: String,
    pub external_id: String,
    pub name: String,
    pub description: Option<String>,
    pub public: bool,
    pub given_exp: i64,
    pub created_at: Option<i64>,
    pub finished_at: Option<i64>,
}

/// The fields of a posted task that its row takes, the user aside.
pub open spec fn task_input_of(t: CreateTask) -> CreateTaskInput {
    CreateTaskInput {
        name: t.name,
        hobby_name: t.hobby_name,
        external_id: t.external_id,
        description: t.description,
        public: t.public,
        given_exp: t.given_exp,
        created_at: t.created_at,
        finished_at: t.finished_at,
    }
}

fn clone_opt_string(s: &Option<String>) -> (r: Option<String>)
    ensures
        r == *s,
{
    match s {
        Some(v) => Some(v.clone()),
        None => None,
    }
}

impl CreateTask {
    /// The fields of the task that its row takes, the user aside.
    pub fn to_create_task_input(&self) -> (i: CreateTaskInput)
        ensures
            i == task_input_of(*self),
    {
        CreateTaskInput {
            name: self.name.clone(),
            hobby_name: self.hobby_name.clone(),
            external_id: self.external_id.clone(),
            description: clone_opt_string(&self.description),
            public: self.public,
            given_exp: self.given_exp,
            created_at: self.created_at,
            finished_at: self.finished_at,
        }
    }
}

/// What the recording of a posted task has just learnt.
pub enum CreateTaskEvent {
    /// The request came in.
    Start,
    /// The insert of the task.
    Inserted(Result<TaskModel, DbError>),
}

/// What the recording of a posted task asks for next.
pub enum CreateTaskAction {
    /// Insert this row.
    Insert(NewTaskRow),
    /// Answer with this.
    Respond(Result<TaskModel, HapiError>),
}

/// One step of recording a task posted for the user named in the path, at
/// time `now`: the task is recorded for that user (whatever user it names
/// itself); the inserted task is the answer, and a failed insert is
/// answered 500 "[TASK_001] Something went wrong!".
pub fn create_task(user_name: &String, new_task: &CreateTask, now: i64, event: CreateTaskEvent) -> (a: CreateTaskAction)
    ensures
        match event {
            CreateTaskEvent::Start => a matches CreateTaskAction::Insert(row) && is_new_task_row(
                row,
                *user_name,
                task_input_of(*new_task),
                now,
            ),
            CreateTaskEvent::Inserted(Ok(t)) => a == CreateTaskAction::Respond(Ok(t)),
            CreateTaskEvent::Inserted(Err(_)) => a matches CreateTaskAction::Respond(Err(e)) && is_refusal(
                e,
                INTERNAL_SERVER_ERROR,
                "[TASK_001] Something went wrong!"@,
            ),
        },
{
    match event {
        CreateTaskEvent::Start => {
            let input = new_task.to_create_task_input();
            CreateTaskAction::Insert(TaskModel::new_task_row(user_name, &input, now))
        },
        CreateTaskEvent::Inserted(Ok(task_model)) => CreateTaskAction::Respond(Ok(task_model)),
        CreateTaskEvent::Inserted(Err(_)) => CreateTaskAction::Respond(
            Err(HapiError::new(INTERNAL_SERVER_ERROR, "[TASK_001] Something went wrong!")),
        ),
    }
}

/// A task posted for the user named in the path is written for that user,
/// with the name, hobby, external id, experience and public flag it was
/// given, the given times or `now`, and the given description or an empty
/// one.
pub proof fn lemma_posted_task_row_keeps_body(row: NewTaskRow, user_name: String, t: CreateTask, now: i64)
    requires
        is_new_task_row(row, user_name, task_input_of(t), now),
    ensures
        row.user_name == user_name,
        row.name == t.name,
        row.hobby_name == t.hobby_name,
        row.external_id == t.external_id,
        row.given_exp == t.given_exp,
        row.public == t.public,
        t.description matches Some(d) ==> row.description@ == d@,
        t.description is None ==> row.description@.len() == 0,
        t.created_at matches Some(c) ==> row.created_at == c,
        t.created_at is None ==> row.created_at == now,
        t.finished_at matches Some(f) ==> row.finished_at == f,
        t.finished_at is None ==> row.finished_at == now,
{
    lemma_new_task_row_keeps_body(row, user_name, task_input_of(t), now);
}

} // verus!
