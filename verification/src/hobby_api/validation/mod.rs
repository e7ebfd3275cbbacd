pub mod task_validation;
pub mod user_validation;

use vstd::prelude::*;

verus! {

/// One field that breaks a declared rule of a request body: the field's
/// name, the rule's code (`length` or `range`) and the rule's message, if it
/// declares one.
#[derive(Debug, Clone, PartialEq, Eq)]
pub struct FieldError {
    pub field: String,
    pub code: String,
    pub message: Option<String>,
}

/// A request refused by a rule that looks beyond its own fields (a name
/// already taken, a hobby that does not exist): the message it is refused
/// with.
#[derive(Debug, Clone, PartialEq, Eq)]
pub struct ValidationFailure {
    pub message: String,
}

impl ValidationFailure {
    pub fn new(message: &str) -> (f: Self)
        ensures
            f.message@ == message@,
    {
        ValidationFailure { message: message.to_owned() }
    }
}

/// A field error as plain text.
pub struct FieldErrorView {
    pub field: Seq<char>,
    pub code: Seq<char>,
    pub message: Option<Seq<char>>,
}

pub open spec fn opt_str_view(s: Option<&str>) -> Option<Seq<char>> {
    match s {
        Some(m) => Some(m@),
        None => None,
    }
}

impl View for FieldError {
    type V = FieldErrorView;

    open spec fn view(&self) -> FieldErrorView {
        FieldErrorView {
            field: self.field@,
            code: self.code@,
            message: match self.message {
                Some(m) => Some(m@),
                None => None,
            },
        }
    }
}

/// The error list that one rule contributes: its error where the rule fails,
/// nothing where it holds.
pub open spec fn error_if(fails: bool, field: Seq<char>, code: Seq<char>, message: Option<Seq<char>>) -> Seq<FieldErrorView> {
    if fails {
        seq![FieldErrorView { field, code, message }]
    } else {
        seq![]
    }
}

/// The views of a list of field errors.
pub open spec fn errors_view(es: Seq<FieldError>) -> Seq<FieldErrorView> {
    es.map_values(|e: FieldError| e@)
}

/// Turns the collected errors into the result of a validation: `Ok` when the
/// list is empty.
pub open spec fn validation_result(es: Seq<FieldErrorView>, r: Result<(), Vec<FieldError>>) -> bool {
    match r {
        Ok(_) => es.len() == 0,
        Err(v) => es.len() > 0 && errors_view(v@) == es,
    }
}

fn opt_owned(s: Option<&str>) -> (r: Option<String>)
    ensures
        match r {
            Some(m) => opt_str_view(s) == Some(m@),
            None => s is None,
        },
{
    match s {
        Some(m) => Some(m.to_owned()),
        None => None,
    }
}

/// Records an error for `field` when `value` is empty (the rule
/// "length at least one character").
pub fn check_not_empty(field: &str, value: &String, message: Option<&str>, errors: &mut Vec<FieldError>)
    ensures
        errors_view(final(errors)@) == errors_view(old(errors)@) + error_if(
            value@.len() == 0,
            field@,
            "length"@,
            opt_str_view(message),
        ),
{
    if value.as_str().is_empty() {
        let e = FieldError { field: field.to_owned(), code: "length".to_owned(), message: opt_owned(message) };
        let ghost before = errors@;
        errors.push(e);
        assert(errors_view(errors@) == errors_view(before).push(e@));
    } else {
        assert(errors_view(errors@) == errors_view(old(errors)@) + Seq::<FieldErrorView>::empty());
    }
}

/// Records an error for `field` when `value` is below `min` (the rule
/// "range with a lower bound").
pub fn check_at_least(field: &str, value: i64, min: i64, message: Option<&str>, errors: &mut Vec<FieldError>)
    ensures
        errors_view(final(errors)@) == errors_view(old(errors)@) + error_if(
            value < min,
            field@,
            "range"@,
            opt_str_view(message),
        ),
{
    if value < min {
        let e = FieldError { field: field.to_owned(), code: "range".to_owned(), message: opt_owned(message) };
        let ghost before = errors@;
        errors.push(e);
        assert(errors_view(errors@) == errors_view(before).push(e@));
    } else {
        assert(errors_view(errors@) == errors_view(old(errors)@) + Seq::<FieldErrorView>::empty());
    }
}

/// The result of a validation from the errors it collected.
pub fn finish_validation(errors: Vec<FieldError>) -> (r: Result<(), Vec<FieldError>>)
    ensures
        validation_result(errors_view(errors@), r),
{
    if errors.len() == 0 {
        Ok(())
    } else {
        Err(errors)
    }
}

} // verus!
