use vstd::prelude::*;

use crate::psql::DbError;

verus! {

/// A site setting read from the configuration table: its value where the
/// read succeeded, `false` where it failed.
pub open spec fn setting_or_off(read: Result<bool, DbError>) -> bool {
    match read {
        Ok(b) => b,
        Err(_) => false,
    }
}

/// Whether the site lets new users register, from the read of its setting.
pub fn is_registration_allowed(read: Result<bool, DbError>) -> (b: bool)
    ensures
        b == setting_or_off(read),
{
    match read {
        Ok(b) => b,
        Err(_) => false,
    }
}

/// Whether the site lets users log in, from the read of its setting.
pub fn is_login_enabled(read: Result<bool, DbError>) -> (b: bool)
    ensures
        b == setting_or_off(read),
{
    match read {
        Ok(b) => b,
        Err(_) => false,
    }
}

/// Whether the site lets hobbies talk to it, from the read of its setting.
pub fn is_hapi_allowed(read: Result<bool, DbError>) -> (b: bool)
    ensures
        b == setting_or_off(read),
{
    match read {
        Ok(b) => b,
        Err(_) => false,
    }
}

/// A site setting is on exactly when it was read and reads as on: a failed
/// read leaves it off.
pub proof fn lemma_setting_on_only_when_read_on(read: Result<bool, DbError>)
    ensures
        setting_or_off(read) <==> read == Ok::<bool, DbError>(true),
{
}

} // verus!
