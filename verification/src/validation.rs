//! Validated request payloads, and how a failed validation is worded.

use crate::text::{join, joined, texts};
use vstd::prelude::*;
use vstd::string::*;

verus! {

/// A request payload that was decoded and has passed validation.
#[derive(Debug, Clone, Copy, Default)]
pub struct ValidatedJson<T>(pub T);

/// One failed rule of a field.
#[derive(Debug, Clone)]
pub struct FieldError {
    /// The code of the rule.
    pub code: String,
    /// What the rule says of the failure, where it says anything.
    pub message: Option<String>,
}

/// The failed rules of one field.
#[derive(Debug, Clone)]
pub struct FieldFailures {
    /// The name of the field.
    pub field: String,
    /// Its failed rules, in the order they are reported in.
    pub errors: Vec<FieldError>,
}

/// What is shown for one failed rule: its message, or its code where it has
/// none.
pub open spec fn error_line(error: FieldError) -> Seq<char> {
    match error.message {
        Some(message) => message@,
        None => "invalid value for '"@ + error.code@ + "'"@,
    }
}

/// What is shown for one field: its name, then its failed rules with commas
/// between them.
pub open spec fn field_line(failures: FieldFailures) -> Seq<char> {
    failures.field@ + ": "@ + joined(
        failures.errors@.map_values(|error: FieldError| error_line(error)),
        ", "@,
    )
}

/// What is shown for a failed validation: its fields with semicolons
/// between them.
pub open spec fn validation_text(failures: Seq<FieldFailures>) -> Seq<char> {
    joined(failures.map_values(|field: FieldFailures| field_line(field)), "; "@)
}

/// Words one failed rule.
fn format_error(error: &FieldError) -> (line: String)
    ensures
        line@ == error_line(*error),
{
    match &error.message {
        Some(message) => message.clone(),
        None => String::from_str("invalid value for '").concat(error.code.as_str()).concat("'"),
    }
}

/// Words the failed rules of one field.
fn format_field(failures: &FieldFailures) -> (line: String)
    ensures
        line@ == field_line(*failures),
{
    let mut lines: Vec<String> = Vec::new();
    let mut i: usize = 0;
    while i < failures.errors.len()
        invariant
            i <= failures.errors.len(),
            lines.len() == i,
            forall|k: int| 0 <= k < i ==> lines@[k]@ == error_line(failures.errors@[k]),
        decreases failures.errors.len() - i,
    {
        lines.push(format_error(&failures.errors[i]));
        i = i + 1;
    }
    proof {
        assert(texts(lines@) =~= failures.errors@.map_values(
            |error: FieldError| error_line(error),
        ));
    }
    failures.field.clone().concat(": ").concat(join(&lines, ", ").as_str())
}

/// Words a failed validation for the answer to the request.
pub fn format_validation_errors(errors: &Vec<FieldFailures>) -> (text: String)
    ensures
        text@ == validation_text(errors@),
{
    let mut lines: Vec<String> = Vec::new();
    let mut i: usize = 0;
    while i < errors.len()
        invariant
            i <= errors.len(),
            lines.len() == i,
            forall|k: int| 0 <= k < i ==> lines@[k]@ == field_line(errors@[k]),
        decreases errors.len() - i,
    {
        lines.push(format_field(&errors[i]));
        i = i + 1;
    }
    proof {
        assert(texts(lines@) =~= errors@.map_values(|field: FieldFailures| field_line(field)));
    }
    join(&lines, "; ")
}

} // verus!
