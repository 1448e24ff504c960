use vstd::prelude::*;

verus! {

/// The application's error: a human-readable message.
#[derive(Debug)]
pub struct AppError(String);

impl View for AppError {
    type V = Seq<char>;

    closed spec fn view(&self) -> Seq<char> {
        self.0@
    }
}

impl AppError {
    /// The error's message.
    pub fn message(&self) -> (r: String)
        ensures
            r@ == self@,
    {
        self.0.clone()
    }
}

impl From<String> for AppError {
    fn from(error: String) -> (r: AppError)
        ensures
            r@ == error@,
    {
        AppError(error)
    }
}

impl vstd::std_specs::convert::FromSpecImpl<String> for AppError {
    open spec fn obeys_from_spec() -> bool {
        true
    }

    closed spec fn from_spec(v: String) -> AppError {
        AppError(v)
    }
}

} // verus!
