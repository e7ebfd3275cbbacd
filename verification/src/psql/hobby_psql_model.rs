use vstd::prelude::*;

use crate::front_api::gql_models::GqlHobby;

verus! {

/// A row of the hobby table. `created_at` counts microseconds since the Unix
/// epoch (UTC).
#[derive(Debug, Clone, PartialEq, Eq)]
pub struct HobbyModel {
    pub name: String,
    pub created_at: i64,
    pub enabled: bool,
    pub external_url: String,
    pub create_user_callback: String,
    pub token: String,
}

/// The GraphQL view of a hobby row: the row's public fields, unchanged.
pub open spec fn gql_hobby_of(m: HobbyModel) -> GqlHobby {
    GqlHobby { name: m.name, created_at: m.created_at, enabled: m.enabled, external_url: m.external_url }
}

impl HobbyModel {
    /// The GraphQL view of this hobby.
    pub fn convert_to_gql(&self) -> (g: GqlHobby)
        ensures
            g == gql_hobby_of(*self),
    {
        GqlHobby {
            name: self.name.clone(),
            created_at: self.created_at,
            enabled: self.enabled,
            external_url: self.external_url.clone(),
        }
    }

    /// The GraphQL views of the given hobbies, in the same order.
    pub fn convert_all_to_gql(hobby_models: &Vec<HobbyModel>) -> (gs: Vec<GqlHobby>)
        ensures
            gs@ == hobby_models@.map_values(|m: HobbyModel| gql_hobby_of(m)),
    {
        let mut gs: Vec<GqlHobby> = Vec::new();
        let n = hobby_models.len();
        for i in 0..n
            invariant
                n == hobby_models@.len(),
                gs@ == hobby_models@.subrange(0, i as int).map_values(|m: HobbyModel| gql_hobby_of(m)),
        {
            gs.push(hobby_models[i].convert_to_gql());
            assert(hobby_models@.subrange(0, i + 1) == hobby_models@.subrange(0, i as int).push(hobby_models@[i as int]));
        }
        assert(hobby_models@.subrange(0, n as int) == hobby_models@);
        gs
    }
}

/// The GraphQL views of a list of hobby rows are one per row, in the same
/// order, and each shows its row's name, creation time, state and address
/// unchanged.
pub proof fn lemma_hobby_views_keep_rows(rows: Seq<HobbyModel>, views: Seq<GqlHobby>)
    requires
        views == rows.map_values(|m: HobbyModel| gql_hobby_of(m)),
    ensures
        views.len() == rows.len(),
        forall|k: int|
            0 <= k < rows.len() ==> {
                &&& #[trigger] views[k].name == rows[k].name
                &&& views[k].created_at == rows[k].created_at
                &&& views[k].enabled == rows[k].enabled
                &&& views[k].external_url == rows[k].external_url
            },
{
}

} // verus!
