use vstd::prelude::*;

verus! {

/// An error.
#[derive(Debug, PartialEq, Eq)]
pub enum Error {
    /// A file could not be opened, read or written.
    Io,
    /// A hyperparameter breaks one of its constraints; the text says which.
    Parameter(String),
    /// The engine failed for a reason it does not report.
    Unknown,
}

impl Error {
    /// The human-readable description of an error.
    pub open spec fn spec_message(&self) -> Seq<char> {
        match self {
            Error::Io => "cannot open file"@,
            Error::Parameter(reason) => reason@,
            Error::Unknown => "unknown error"@,
        }
    }

    /// Returns the human-readable description of this error.
    pub fn message(&self) -> (r: String)
        ensures
            r@ == self.spec_message(),
    {
        match self {
            Error::Io => "cannot open file".to_owned(),
            Error::Parameter(reason) => reason.clone(),
            Error::Unknown => "unknown error".to_owned(),
        }
    }
}

/// The outcome of saving a model, from the status code that the engine
/// returned: zero is success, anything else a failure to write the file.
pub fn save_result(status: i32) -> (r: Result<(), Error>)
    ensures
        r is Ok <==> status == 0,
        r matches Err(e) ==> e is Io,
{
    if status == 0 {
        Ok(())
    } else {
        Err(Error::Io)
    }
}

} // verus!
