//! The error every fallible operation of the library reports: a stable code
//! the user interface branches on, and a message for people.

use vstd::prelude::*;

verus! {

#[derive(Debug, Clone, PartialEq, Eq)]
pub struct AppError {
    pub code: String,
    pub message: String,
}

impl AppError {
    pub fn new(code: &str, message: &str) -> (error: AppError)
        ensures
            error.code@ == code@,
            error.message@ == message@,
    {
        AppError { code: code.to_owned(), message: message.to_owned() }
    }
}

} // verus!
