//! Verified core of the lifehon service: the data it stores and answers with,
//! the checks it runs on requests, and the decisions its handlers take.
pub mod front_api;
pub mod psql;
pub mod hobby_api;
pub mod services;
