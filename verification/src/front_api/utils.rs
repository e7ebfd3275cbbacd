use vstd::prelude::*;

verus! {

/// The error a GraphQL resolver answers with: a message and, where set, the
/// value of the `error_code` extension.
#[derive(Debug, Clone, PartialEq, Eq)]
pub struct GqlError {
    pub message: String,
    pub error_code: Option<String>,
}

impl GqlError {
    /// An error with the given message and no extension.
    pub fn new(message: &str) -> (e: Self)
        ensures
            e.message@ == message@,
            e.error_code is None,
    {
        GqlError { message: message.to_owned(), error_code: None }
    }

    /// An error with the given message and `error_code` extension.
    pub fn with_code(message: &str, code: &str) -> (e: Self)
        ensures
            e.message@ == message@,
            e.error_code matches Some(c) && c@ == code@,
    {
        GqlError { message: message.to_owned(), error_code: Some(code.to_owned()) }
    }
}

/// Whether `e` is the error with this message and this `error_code`.
pub open spec fn is_coded_error(e: GqlError, message: Seq<char>, code: Seq<char>) -> bool {
    &&& e.message@ == message
    &&& e.error_code matches Some(c) && c@ == code
}

/// The answer of a resolver that finds no database pool in its context.
pub fn error_database_not_setup() -> (e: GqlError)
    ensures
        is_coded_error(e, "[SERVER_001] Server error!"@, "SERVER_001"@),
{
    GqlError::with_code("[SERVER_001] Server error!", "SERVER_001")
}

/// A coded error carries exactly the given message and the given
/// `error_code`.
pub proof fn lemma_coded_error_has_message_and_code(e: GqlError, message: Seq<char>, code: Seq<char>)
    requires
        is_coded_error(e, message, code),
    ensures
        e.message@ == message,
        e.error_code is Some,
        e.error_code->Some_0@ == code,
{
}

} // verus!
