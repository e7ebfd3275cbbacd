use vstd::prelude::*;

use crate::front_api::gql_models::GqlTask;
use crate::hobby_api::hapi_task::CreateTaskInput;

verus! {

/// A row of the task table. `id` is the task's UUID as a 128-bit number; the
/// times count microseconds since the Unix epoch (UTC).
#[derive(Debug, Clone, PartialEq, Eq)]
pub struct TaskModel {
    pub id: u128,
    pub user_name: String,
    pub hobby_name: String,
    pub external_id: String,
    pub name: String,
    pub description: Option<String>,
    pub public: bool,
    pub given_exp: i64,
    pub created_at: i64,
    pub finished_at: i64,
}

/// The values that recording a task writes into a new row (the database
/// gives the row its id).
#[derive(Debug, Clone, PartialEq, Eq)]
pub struct NewTaskRow {
    pub name: String,
    pub user_name: String,
    pub hobby_name: String,
    pub external_id: String,
    pub description: String,
    pub created_at: i64,
    pub finished_at: i64,
    pub given_exp: i64,
    pub public: bool,
}

/// The GraphQL view of a task row: all its fields, unchanged.
pub open spec fn gql_task_of(m: TaskModel) -> GqlTask {
    GqlTask {
        id: m.id,
        user_name: m.user_name,
        hobby_name: m.hobby_name,
        external_id: m.external_id,
        name: m.name,
        description: m.description,
        public: m.public,
        given_exp: m.given_exp,
        created_at: m.created_at,
        finished_at: m.finished_at,
    }
}

/// The text of an optional description, the empty text where there is none.
pub open spec fn description_or_empty(d: Option<String>) -> Seq<char> {
    match d {
        Some(s) => s@,
        None => Seq::empty(),
    }
}

/// A time that was given, or `now` where none was.
pub open spec fn time_or_now(t: Option<i64>, now: i64) -> i64 {
    match t {
        Some(v) => v,
        None => now,
    }
}

fn clone_opt_string(s: &Option<String>) -> (r: Option<String>)
    ensures
        r == *s,
{
    match s {
        Some(v) => Some(v.clone()),
        None => None,
    }
}

/// Whether `row` is the row that records `input` for `user_name` at time
/// `now`: the body's fields, the empty description where it has none, and
/// `now` for each time it leaves out.
pub open spec fn is_new_task_row(row: NewTaskRow, user_name: String, input: CreateTaskInput, now: i64) -> bool {
    &&& row.name == input.name
    &&& row.user_name == user_name
    &&& row.hobby_name == input.hobby_name
    &&& row.external_id == input.external_id
    &&& row.description@ == description_or_empty(input.description)
    &&& row.created_at == time_or_now(input.created_at, now)
    &&& row.finished_at == time_or_now(input.finished_at, now)
    &&& row.given_exp == input.given_exp
    &&& row.public == input.public
}

impl TaskModel {
    /// The values of the row that records `create_task` for `user_name` at
    /// time `now`: the body's fields, the empty description where it has
    /// none, and `now` for each time it leaves out.
    pub fn new_task_row(user_name: &String, create_task: &CreateTaskInput, now: i64) -> (row: NewTaskRow)
        ensures
            is_new_task_row(row, *user_name, *create_task, now),
    {
        let description = match &create_task.description {
            Some(d) => d.clone(),
            None => String::new(),
        };
        let created_at = match create_task.created_at {
            Some(t) => t,
            None => now,
        };
        let finished_at = match create_task.finished_at {
            Some(t) => t,
            None => now,
        };
        NewTaskRow {
            name: create_task.name.clone(),
            user_name: user_name.clone(),
            hobby_name: create_task.hobby_name.clone(),
            external_id: create_task.external_id.clone(),
            description,
            created_at,
            finished_at,
            given_exp: create_task.given_exp,
            public: create_task.public,
        }
    }

    /// The GraphQL view of the task.
    pub fn convert_to_gql(&self) -> (g: GqlTask)
        ensures
            g == gql_task_of(*self),
    {
        GqlTask {
            id: self.id,
            user_name: self.user_name.clone(),
            hobby_name: self.hobby_name.clone(),
            external_id: self.external_id.clone(),
            name: self.name.clone(),
            description: clone_opt_string(&self.description),
            public: self.public,
            given_exp: self.given_exp,
            created_at: self.created_at,
            finished_at: self.finished_at,
        }
    }

    /// The GraphQL views of the given tasks, in the same order.
    pub fn convert_all_to_gql(task_models: &Vec<TaskModel>) -> (gs: Vec<GqlTask>)
        ensures
            gs@ == task_models@.map_values(|m: TaskModel| gql_task_of(m)),
    {
        let mut gs: Vec<GqlTask> = Vec::new();
        let n = task_models.len();
        for i in 0..n
            invariant
                n == task_models@.len(),
                gs@ == task_models@.subrange(0, i as int).map_values(|m: TaskModel| gql_task_of(m)),
        {
            gs.push(task_models[i].convert_to_gql());
            assert(task_models@.subrange(0, i + 1) == task_models@.subrange(0, i as int).push(task_models@[i as int]));
        }
        assert(task_models@.subrange(0, n as int) == task_models@);
        gs
    }
}

/// The row that records a task keeps what the body asked for: its name,
/// hobby, external id, experience and public flag; it is recorded for the
/// given user; the description is the given one, or empty where none is
/// given; each time is the given one, or `now` where the body leaves it out.
pub proof fn lemma_new_task_row_keeps_body(row: NewTaskRow, user_name: String, input: CreateTaskInput, now: i64)
    requires
        is_new_task_row(row, user_name, input, now),
    ensures
        row.public == input.public,
        row.name == input.name,
        row.user_name == user_name,
        row.hobby_name == input.hobby_name,
        row.external_id == input.external_id,
        row.given_exp == input.given_exp,
        input.description matches Some(d) ==> row.description@ == d@,
        input.description is None ==> row.description@.len() == 0,
        input.created_at matches Some(t) ==> row.created_at == t,
        input.created_at is None ==> row.created_at == now,
        input.finished_at matches Some(t) ==> row.finished_at == t,
        input.finished_at is None ==> row.finished_at == now,
{
}

/// The GraphQL views of a list of task rows are one per row, in the same
/// order, and each shows its row's fields unchanged: private tasks stay
/// private.
pub proof fn lemma_task_views_keep_rows(rows: Seq<TaskModel>, views: Seq<GqlTask>)
    requires
        views == rows.map_values(|m: TaskModel| gql_task_of(m)),
    ensures
        views.len() == rows.len(),
        forall|k: int|
            0 <= k < rows.len() ==> {
                &&& #[trigger] views[k].public == rows[k].public
                &&& views[k].id == rows[k].id
                &&& views[k].user_name == rows[k].user_name
                &&& views[k].hobby_name == rows[k].hobby_name
                &&& views[k].external_id == rows[k].external_id
                &&& views[k].name == rows[k].name
                &&& views[k].description == rows[k].description
                &&& views[k].given_exp == rows[k].given_exp
                &&& views[k].created_at == rows[k].created_at
                &&& views[k].finished_at == rows[k].finished_at
            },
{
}

} // verus!
