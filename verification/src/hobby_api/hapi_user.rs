use vstd::prelude::*;

use crate::hobby_api::{is_refusal, HapiError, BAD_REQUEST, CREATED, INTERNAL_SERVER_ERROR, NO_CONTENT};
use crate::hobby_api::validation::ValidationFailure;
use crate::psql::hobby_psql_model::HobbyModel;
use crate::psql::user_psql_model::{new_user_row_of, NewUserRow, UserModel};
use crate::psql::DbError;
use vstd::string::StringExecFns;
use crate::hobby_api::validation::{
    check_not_empty, error_if, errors_view, finish_validation, validation_result, FieldError,
    FieldErrorView,
};

verus! {

/// The body of a request that registers a user.
#[derive(Debug, Clone, PartialEq, Eq)]
pub struct CreateUserInput {
    pub name: String,
    pub consent: bool,
    pub public_profile: bool,
    pub email: String,
    pub password: String,
}

/// The body of a request that adds a hobby to a user.
#[derive(Debug, Clone, PartialEq, Eq)]
pub struct AddHobbyToUserInput {
    pub user_name: String,
    pub hobby_name: String,
}

/// The rules a registration body declares: name, email and password are not
/// empty, each with its own message.
pub open spec fn create_user_input_errors(i: CreateUserInput) -> Seq<FieldErrorView> {
    error_if(i.name@.len() == 0, "name"@, "length"@, Some("[CREATE_USER_003] - the name is empty"@))
        + error_if(i.email@.len() == 0, "email"@, "length"@, Some("[CREATE_USER_004] - the email is empty"@))
        + error_if(i.password@.len() == 0, "password"@, "length"@, Some("[CREATE_USER_005] - the password is empty"@))
}

/// The rules of a body that adds a hobby to a user: both names are not
/// empty; the rules declare no message.
pub open spec fn add_hobby_input_errors(i: AddHobbyToUserInput) -> Seq<FieldErrorView> {
    error_if(i.user_name@.len() == 0, "user_name"@, "length"@, None)
        + error_if(i.hobby_name@.len() == 0, "hobby_name"@, "length"@, None)
}

impl CreateUserInput {
    /// Checks the declared rules; lists every field that breaks one, in the
    /// order of the fields.
    pub fn validate(&self) -> (r: Result<(), Vec<FieldError>>)
        ensures
            validation_result(create_user_input_errors(*self), r),
    {
        let mut errors: Vec<FieldError> = Vec::new();
        check_not_empty("name", &self.name, Some("[CREATE_USER_003] - the name is empty"), &mut errors);
        check_not_empty("email", &self.email, Some("[CREATE_USER_004] - the email is empty"), &mut errors);
        check_not_empty("password", &self.password, Some("[CREATE_USER_005] - the password is empty"), &mut errors);
        assert(errors_view(errors@) =~= create_user_input_errors(*self));
        finish_validation(errors)
    }
}

impl AddHobbyToUserInput {
    /// Checks the declared rules; lists every field that breaks one, in the
    /// order of the fields.
    pub fn validate(&self) -> (r: Result<(), Vec<FieldError>>)
        ensures
            validation_result(add_hobby_input_errors(*self), r),
    {
        let mut errors: Vec<FieldError> = Vec::new();
        check_not_empty("user_name", &self.user_name, None, &mut errors);
        check_not_empty("hobby_name", &self.hobby_name, None, &mut errors);
        assert(errors_view(errors@) =~= add_hobby_input_errors(*self));
        finish_validation(errors)
    }
}

/// The answer to a request for a user by name, given the lookup: the user,
/// or 204 "[USER_001] user is not found!".
pub fn get_user_for_name(lookup: Result<UserModel, DbError>) -> (r: Result<UserModel, HapiError>)
    ensures
        match lookup {
            Ok(u) => r == Ok::<UserModel, HapiError>(u),
            Err(_) => r matches Err(e) && is_refusal(e, NO_CONTENT, "[USER_001] user is not found!"@),
        },
{
    match lookup {
        Ok(user_model) => Ok(user_model),
        Err(_) => Err(HapiError::new(NO_CONTENT, "[USER_001] user is not found!")),
    }
}

/// What a registration has just learnt (its body already passed its rules).
pub enum CreateUserEvent {
    /// The check that consent is given and name and email are free.
    Validated(Result<(), ValidationFailure>),
    /// The insert of the new user.
    Inserted(Result<UserModel, DbError>),
}

/// What a registration asks for next.
pub enum CreateUserAction {
    /// Insert this row.
    Insert(NewUserRow),
    /// Answer with this.
    Respond(Result<UserModel, HapiError>),
}

/// One step of a registration through the hobby API: a refused check is
/// answered 400 with its message; a passed one inserts the user's row; the
/// inserted user is the answer, and a failed insert is answered 500
/// "[USER_002] Something went wrong!".
pub fn create_user(new_user: &CreateUserInput, event: CreateUserEvent) -> (a: CreateUserAction)
    ensures
        match event {
            CreateUserEvent::Validated(Err(f)) => a matches CreateUserAction::Respond(Err(e)) && is_refusal(
                e,
                BAD_REQUEST,
                f.message@,
            ),
            CreateUserEvent::Validated(Ok(_)) => a == CreateUserAction::Insert(new_user_row_of(*new_user)),
            CreateUserEvent::Inserted(Ok(u)) => a == CreateUserAction::Respond(Ok(u)),
            CreateUserEvent::Inserted(Err(_)) => a matches CreateUserAction::Respond(Err(e)) && is_refusal(
                e,
                INTERNAL_SERVER_ERROR,
                "[USER_002] Something went wrong!"@,
            ),
        },
{
    match event {
        CreateUserEvent::Validated(Err(failure)) => CreateUserAction::Respond(
            Err(HapiError { status: BAD_REQUEST, message: failure.message }),
        ),
        CreateUserEvent::Validated(Ok(_)) => CreateUserAction::Insert(UserModel::new_user_row(new_user)),
        CreateUserEvent::Inserted(Ok(user_model)) => CreateUserAction::Respond(Ok(user_model)),
        CreateUserEvent::Inserted(Err(_)) => CreateUserAction::Respond(
            Err(HapiError::new(INTERNAL_SERVER_ERROR, "[USER_002] Something went wrong!")),
        ),
    }
}

/// The answer to a request that adds a hobby to a user, given the insert:
/// 201 "Hobby added!", or 500 "[USER_003] Something went wrong!".
pub fn add_hobby(inserted: Result<(), DbError>) -> (r: Result<(u16, String), HapiError>)
    ensures
        match inserted {
            Ok(_) => r matches Ok((status, body)) && status == CREATED && body@ == "Hobby added!"@,
            Err(_) => r matches Err(e) && is_refusal(e, INTERNAL_SERVER_ERROR, "[USER_003] Something went wrong!"@),
        },
{
    match inserted {
        Ok(_) => Ok((CREATED, "Hobby added!".to_owned())),
        Err(_) => Err(HapiError::new(INTERNAL_SERVER_ERROR, "[USER_003] Something went wrong!")),
    }
}

/// The address to which a new user of a hobby is sent: the hobby's external
/// address, a backslash, and its user callback.
pub fn send_user_to_hnode(hobby_model: &HobbyModel) -> (url: String)
    ensures
        url@ == hobby_model.external_url@ + "\\"@ + hobby_model.create_user_callback@,
{
    let mut url = hobby_model.external_url.clone();
    url.append("\\");
    url.append(hobby_model.create_user_callback.as_str());
    url
}

/// A body that adds a hobby to a user passes exactly when both names are
/// given. Each missing name is reported as a `length` error on its field,
/// with no message, and no error names a field that was given.
pub proof fn lemma_add_hobby_body_needs_both_names(i: AddHobbyToUserInput, r: Result<(), Vec<FieldError>>)
    requires
        validation_result(add_hobby_input_errors(i), r),
    ensures
        r is Ok <==> (i.user_name@.len() > 0 && i.hobby_name@.len() > 0),
        i.user_name@.len() == 0 ==> (r matches Err(v) && exists|k: int|
            0 <= k < v@.len() && #[trigger] v@[k].field@ == "user_name"@ && v@[k].code@ == "length"@
                && v@[k].message is None),
        i.hobby_name@.len() == 0 ==> (r matches Err(v) && exists|k: int|
            0 <= k < v@.len() && #[trigger] v@[k].field@ == "hobby_name"@ && v@[k].code@ == "length"@
                && v@[k].message is None),
        r matches Err(v) ==> forall|k: int|
            0 <= k < v@.len() ==> (#[trigger] v@[k].field@ == "user_name"@ && i.user_name@.len() == 0) || (
            v@[k].field@ == "hobby_name"@ && i.hobby_name@.len() == 0),
{
    if let Err(v) = r {
        let es = add_hobby_input_errors(i);
        assert(errors_view(v@) == es);
        assert forall|k: int| 0 <= k < v@.len() implies v@[k]@ == es[k] by {
            assert(errors_view(v@)[k] == v@[k]@);
        }
        if i.user_name@.len() == 0 {
            assert(v@[0]@ == es[0]);
        }
        if i.hobby_name@.len() == 0 {
            if i.user_name@.len() == 0 {
                assert(v@[1]@ == es[1]);
            } else {
                assert(v@[0]@ == es[0]);
            }
        }
    }
}

/// A registration body passes its declared rules exactly when name, email
/// and password are given. Each missing one is reported as a `length` error
/// on its field with its own message, and no error names a field that was
/// given.
pub proof fn lemma_create_user_body_needs_all_fields(i: CreateUserInput, r: Result<(), Vec<FieldError>>)
    requires
        validation_result(create_user_input_errors(i), r),
    ensures
        r is Ok <==> (i.name@.len() > 0 && i.email@.len() > 0 && i.password@.len() > 0),
        i.name@.len() == 0 ==> (r matches Err(v) && exists|k: int|
            0 <= k < v@.len() && #[trigger] v@[k].field@ == "name"@ && v@[k].code@ == "length"@
                && v@[k]@.message == Some("[CREATE_USER_003] - the name is empty"@)),
        i.email@.len() == 0 ==> (r matches Err(v) && exists|k: int|
            0 <= k < v@.len() && #[trigger] v@[k].field@ == "email"@ && v@[k].code@ == "length"@
                && v@[k]@.message == Some("[CREATE_USER_004] - the email is empty"@)),
        i.password@.len() == 0 ==> (r matches Err(v) && exists|k: int|
            0 <= k < v@.len() && #[trigger] v@[k].field@ == "password"@ && v@[k].code@ == "length"@
                && v@[k]@.message == Some("[CREATE_USER_005] - the password is empty"@)),
        r matches Err(v) ==> forall|k: int|
            0 <= k < v@.len() ==> (#[trigger] v@[k].field@ == "name"@ && i.name@.len() == 0) || (v@[k].field@
                == "email"@ && i.email@.len() == 0) || (v@[k].field@ == "password"@ && i.password@.len() == 0),
{
    if let Err(v) = r {
        let es = create_user_input_errors(i);
        assert(errors_view(v@) == es);
        assert forall|k: int| 0 <= k < v@.len() implies v@[k]@ == es[k] by {
            assert(errors_view(v@)[k] == v@[k]@);
        }
        let n: int = if i.name@.len() == 0 { 1 } else { 0 };
        let e: int = if i.email@.len() == 0 { 1 } else { 0 };
        if i.name@.len() == 0 {
            assert(v@[0]@ == es[0]);
        }
        if i.email@.len() == 0 {
            assert(v@[n]@ == es[n]);
        }
        if i.password@.len() == 0 {
            assert(v@[n + e]@ == es[n + e]);
        }
    }
}

} // verus!
