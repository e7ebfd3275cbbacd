use vstd::prelude::*;

use crate::front_api::utils::GqlError;
use crate::psql::hobby_psql_model::{gql_hobby_of, lemma_hobby_views_keep_rows, HobbyModel};
use crate::psql::task_psql_model::{gql_task_of, TaskModel};
use crate::psql::user_psql_model::TASKS_PER_PAGE;
use crate::psql::DbError;

verus! {

/// A hobby as the GraphQL API shows it. `created_at` counts microseconds
/// since the Unix epoch (UTC).
#[derive(Debug, Clone, PartialEq, Eq)]
pub struct GqlHobby {
    pub name: String,
    pub created_at: i64,
    pub enabled: bool,
    pub external_url: String,
}

/// A finished task as the GraphQL API shows it. `id` is the task's UUID as a
/// 128-bit number; the times count microseconds since the Unix epoch (UTC).
#[derive(Debug, Clone, PartialEq, Eq)]
pub struct GqlTask {
    pub id: u128,
    pub user_name: String,
    pub hobby_name: String,
    pub external_id: String,
    pub name: String,
    pub description: Option<String>,
    pub public: bool,
    pub given_exp: i64,
    pub created_at: i64,
    pub finished_at: i64,
}

/// One page of a user's tasks, with the page count and the total number of
/// tasks.
#[derive(Debug, Clone, PartialEq, Eq)]
pub struct GqlTasksPagination {
    pub tasks: Vec<GqlTask>,
    pub pages: i64,
    pub total_amount: Option<i64>,
}

/// A user as the GraphQL API shows it (the password is never exposed by the
/// schema). `id` is the user's UUID as a 128-bit number; `created_at` counts
/// microseconds since the Unix epoch (UTC).
#[derive(Debug, Clone, PartialEq, Eq)]
pub struct GqlUser {
    pub id: u128,
    pub name: String,
    pub email: String,
    pub login_enabled: bool,
    pub password: String,
    pub created_at: i64,
    pub consent: bool,
}

/// The number of full pages of thirty that `count` tasks fill (division
/// that rounds toward zero).
pub open spec fn full_pages(count: i64) -> int {
    if count >= 0 {
        count / 30
    } else {
        -((-count) / 30)
    }
}

/// Whether `r` answers a hobby list with the GraphQL views of the hobbies
/// read, or, where the read failed, with the error "Hobbies not found!".
pub open spec fn is_hobbies_answer(read: Result<Vec<HobbyModel>, DbError>, r: Result<Vec<GqlHobby>, GqlError>) -> bool {
    match read {
        Ok(v) => r matches Ok(g) && g@ == v@.map_values(|m: HobbyModel| gql_hobby_of(m)),
        Err(_) => r matches Err(e) && e.message@ == "Hobbies not found!"@ && e.error_code is None,
    }
}

impl GqlUser {
    /// The answer to a user's hobbies, given their read.
    pub fn hobbies(read: Result<Vec<HobbyModel>, DbError>) -> (r: Result<Vec<GqlHobby>, GqlError>)
        ensures
            is_hobbies_answer(read, r),
    {
        match read {
            Ok(hobby_models) => Ok(HobbyModel::convert_all_to_gql(&hobby_models)),
            Err(_) => Err(GqlError::new("Hobbies not found!")),
        }
    }

    /// The answer to the hobbies a user can still add, given their read.
    pub fn all_available_hobbies(read: Result<Vec<HobbyModel>, DbError>) -> (r: Result<Vec<GqlHobby>, GqlError>)
        ensures
            is_hobbies_answer(read, r),
    {
        match read {
            Ok(hobby_models) => Ok(HobbyModel::convert_all_to_gql(&hobby_models)),
            Err(_) => Err(GqlError::new("Hobbies not found!")),
        }
    }

    /// The answer to a page of a user's tasks, given the read of the page
    /// and the user's total number of tasks: the page's tasks, the number of
    /// full pages of thirty, and the total; the error "[] Error" where the
    /// read failed.
    pub fn tasks(read: Result<Vec<TaskModel>, DbError>, task_count: i64) -> (r: Result<GqlTasksPagination, GqlError>)
        ensures
            match read {
                Ok(v) => r matches Ok(p) && p.tasks@ == v@.map_values(|m: TaskModel| gql_task_of(m)) && p.pages
                    == full_pages(task_count) && p.total_amount == Some(task_count),
                Err(_) => r matches Err(e) && e.message@ == "[] Error"@ && e.error_code is None,
            },
    {
        match read {
            Ok(task_models) => Ok(
                GqlTasksPagination {
                    tasks: TaskModel::convert_all_to_gql(&task_models),
                    pages: task_count / TASKS_PER_PAGE,
                    total_amount: Some(task_count),
                },
            ),
            Err(_) => Err(GqlError::new("[] Error")),
        }
    }
}

/// The page count is the number of whole pages of thirty: for a
/// non-negative total, that many full pages fit and one more would not; for
/// a negative total the count is rounded toward zero, as integer division
/// does.
pub proof fn lemma_full_pages_are_whole_pages(count: i64)
    ensures
        count >= 0 ==> 0 <= full_pages(count) && full_pages(count) * 30 <= count < full_pages(count) * 30 + 30,
        count < 0 ==> full_pages(count) <= 0 && count <= full_pages(count) * 30 < count + 30,
{
}

/// A hobby list answers with one view per hobby read, in the order read,
/// each with the hobby's name, creation time, state and address; where the
/// read failed it answers "Hobbies not found!".
pub proof fn lemma_hobbies_answer_shows_each_hobby(
    read: Result<Vec<HobbyModel>, DbError>,
    r: Result<Vec<GqlHobby>, GqlError>,
)
    requires
        is_hobbies_answer(read, r),
    ensures
        read is Err ==> (r matches Err(e) && e.message@ == "Hobbies not found!"@ && e.error_code is None),
        read matches Ok(v) ==> (r matches Ok(g) && g@.len() == v@.len() && forall|k: int|
            0 <= k < v@.len() ==> {
                &&& #[trigger] g@[k].name == v@[k].name
                &&& g@[k].created_at == v@[k].created_at
                &&& g@[k].enabled == v@[k].enabled
                &&& g@[k].external_url == v@[k].external_url
            }),
{
    if let Ok(v) = read {
        if let Ok(g) = r {
            lemma_hobby_views_keep_rows(v@, g@);
        }
    }
}

} // verus!
