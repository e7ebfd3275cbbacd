use vstd::prelude::*;

use crate::front_api::gql_models::GqlUser;
use crate::hobby_api::hapi_user::CreateUserInput;

verus! {

/// A row of the user table. `id` is the user's UUID as a 128-bit number;
/// `created_at` counts microseconds since the Unix epoch (UTC).
#[derive(Debug, Clone, PartialEq, Eq)]
pub struct UserModel {
    pub id: u128,
    pub name: String,
    pub display_name: String,
    pub email: String,
    pub login_enabled: bool,
    pub password: String,
    pub created_at: i64,
    pub consent: bool,
    pub public_profile: bool,
    pub exp: i64,
}

/// The values that registering a user writes into a new row (the database
/// gives the row its id, creation time and experience).
#[derive(Debug, Clone, PartialEq, Eq)]
pub struct NewUserRow {
    pub name: String,
    pub display_name: String,
    pub email: String,
    pub password: String,
    pub login_enabled: bool,
    pub consent: bool,
    pub public_profile: bool,
}

/// Tasks are listed thirty to a page.
pub const TASKS_PER_PAGE: i64 = 30;

/// The row that registering `i` writes: the display name is the name, login
/// is enabled and consent is recorded as given.
pub open spec fn new_user_row_of(i: CreateUserInput) -> NewUserRow {
    NewUserRow {
        name: i.name,
        display_name: i.name,
        email: i.email,
        password: i.password,
        login_enabled: true,
        consent: true,
        public_profile: i.public_profile,
    }
}

/// The GraphQL view of a user row.
pub open spec fn gql_user_of(m: UserModel) -> GqlUser {
    GqlUser {
        id: m.id,
        name: m.name,
        email: m.email,
        login_enabled: m.login_enabled,
        password: m.password,
        created_at: m.created_at,
        consent: m.consent,
    }
}

impl UserModel {
    /// The values of the row that registers `create_user`: the display name
    /// is the name, login is enabled and consent is recorded as given.
    pub fn new_user_row(create_user: &CreateUserInput) -> (row: NewUserRow)
        ensures
            row == new_user_row_of(*create_user),
    {
        NewUserRow {
            name: create_user.name.clone(),
            display_name: create_user.name.clone(),
            email: create_user.email.clone(),
            password: create_user.password.clone(),
            login_enabled: true,
            consent: true,
            public_profile: create_user.public_profile,
        }
    }

    /// The `(limit, offset)` of the given page of a user's tasks, newest
    /// first: thirty tasks, starting after `page` full pages.
    pub fn tasks_page_window(page: i64) -> (w: (i64, i64))
        requires
            i64::MIN <= page * TASKS_PER_PAGE <= i64::MAX,
        ensures
            w.0 == TASKS_PER_PAGE,
            w.1 == page * TASKS_PER_PAGE,
    {
        (TASKS_PER_PAGE, page * TASKS_PER_PAGE)
    }

    /// The GraphQL view of this user.
    pub fn convert_to_gql(&self) -> (g: GqlUser)
        ensures
            g == gql_user_of(*self),
    {
        GqlUser {
            id: self.id,
            name: self.name.clone(),
            email: self.email.clone(),
            login_enabled: self.login_enabled,
            password: self.password.clone(),
            created_at: self.created_at,
            consent: self.consent,
        }
    }

    /// The GraphQL views of the given users, in the same order.
    pub fn convert_all_to_gql(user_models: &Vec<UserModel>) -> (gs: Vec<GqlUser>)
        ensures
            gs@ == user_models@.map_values(|m: UserModel| gql_user_of(m)),
    {
        let mut gs: Vec<GqlUser> = Vec::new();
        let n = user_models.len();
        for i in 0..n
            invariant
                n == user_models@.len(),
                gs@ == user_models@.subrange(0, i as int).map_values(|m: UserModel| gql_user_of(m)),
        {
            gs.push(user_models[i].convert_to_gql());
            assert(user_models@.subrange(0, i + 1) == user_models@.subrange(0, i as int).push(user_models@[i as int]));
        }
        assert(user_models@.subrange(0, n as int) == user_models@);
        gs
    }
}

/// The row that registers a user keeps the requested name, email, password
/// and profile visibility; its display name is the name, login is enabled
/// and consent is recorded as given.
pub proof fn lemma_new_user_row_keeps_body(input: CreateUserInput, row: NewUserRow)
    requires
        row == new_user_row_of(input),
    ensures
        row.public_profile == input.public_profile,
        row.name == input.name,
        row.display_name == input.name,
        row.email == input.email,
        row.password == input.password,
        row.login_enabled,
        row.consent,
{
}

/// The GraphQL views of a list of user rows are one per row, in the same
/// order, and each shows its row's fields unchanged.
pub proof fn lemma_user_views_keep_rows(rows: Seq<UserModel>, views: Seq<GqlUser>)
    requires
        views == rows.map_values(|m: UserModel| gql_user_of(m)),
    ensures
        views.len() == rows.len(),
        forall|k: int|
            0 <= k < rows.len() ==> {
                &&& #[trigger] views[k].id == rows[k].id
                &&& views[k].name == rows[k].name
                &&& views[k].email == rows[k].email
                &&& views[k].login_enabled == rows[k].login_enabled
                &&& views[k].password == rows[k].password
                &&& views[k].created_at == rows[k].created_at
                &&& views[k].consent == rows[k].consent
            },
{
}

} // verus!
