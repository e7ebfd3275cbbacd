pub mod gql_auth;
pub mod gql_guards;
pub mod gql_models;
pub mod gql_mutations;
pub mod gql_query;
pub mod utils;
