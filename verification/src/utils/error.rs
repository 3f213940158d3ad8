//! Errors of the hypervisor at run time.
use vstd::prelude::*;

verus! {

/// An error with no kind of its own, described by a message.
pub struct UndefinedError {
    details: String,
}

impl UndefinedError {
    pub closed spec fn spec_details(&self) -> Seq<char> {
        self.details@
    }

    pub fn new(msg: &str) -> (r: UndefinedError)
        ensures
            r.spec_details() == msg@,
    {
        UndefinedError { details: msg.to_owned() }
    }

    /// The text of the error: `UndefinedError: ` and its details.
    pub fn message(&self) -> (r: String)
        ensures
            r@ == "UndefinedError: "@ + self.spec_details(),
    {
        let mut r = String::from_str("UndefinedError: ");
        r.append(self.details.as_str());
        r
    }
}

/// An error at run time.
pub enum RuntimeError {
    /// The operation is not implemented.
    NotImpl,
    Undef(UndefinedError),
}

impl RuntimeError {
    /// The text of the error.
    pub fn message(&self) -> (r: String)
        ensures
            match self {
                RuntimeError::NotImpl => r@ == "Not implemented"@,
                RuntimeError::Undef(e) => r@ == "UndefinedError: "@ + e.spec_details(),
            },
    {
        match self {
            RuntimeError::NotImpl => "Not implemented".to_owned(),
            RuntimeError::Undef(e) => e.message(),
        }
    }
}

fn return_error() -> (r: Result<(), RuntimeError>)
    ensures
        r matches Err(RuntimeError::Undef(e)) && e.spec_details() == "Test error"@,
{
    Err(RuntimeError::Undef(UndefinedError::new("Test error")))
}

/// An operation that fails returns its error.
pub fn test_error() -> (r: Result<(), &'static str>)
    ensures
        r is Ok,
{
    match return_error() {
        Ok(_) => Err("Error not returned"),
        Err(e) => Ok(()),
    }
}

} // verus!
