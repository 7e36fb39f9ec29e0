use vstd::prelude::*;

verus! {

/// Failures to reach one of the two collections.
#[derive(Debug, Clone)]
pub enum IOErrors {
    GetUser(String),
    GetPost(String),
}

/// The text of an `IOErrors` value.
pub open spec fn io_error_text(e: IOErrors) -> Seq<char> {
    match e {
        IOErrors::GetUser(s) => "GetUser error: `"@ + s@ + "`"@,
        IOErrors::GetPost(s) => "GetPost error: `"@ + s@ + "`"@,
    }
}

impl IOErrors {
    /// The human-readable text of this error.
    pub fn message(&self) -> (r: String)
        ensures
            r@ == io_error_text(*self),
    {
        match self {
            IOErrors::GetUser(s) => {
                let mut r = String::from_str("GetUser error: `");
                r.append(s.as_str());
                r.append("`");
                r
            },
            IOErrors::GetPost(s) => {
                let mut r = String::from_str("GetPost error: `");
                r.append(s.as_str());
                r.append("`");
                r
            },
        }
    }
}

} // verus!
