use vstd::prelude::*;
use vstd::string::StringExecFns;

verus! {

/// The failure conditions the library can report, one tagged variant per
/// condition: the configuration source being absent, the named variable
/// being absent from it, a failed write of the counter file, a failed
/// exchange with the service, and a reply in which the expected text is
/// missing.
#[derive(Debug)]
pub enum Error {
    DotEnvNotFound,
    VariableNotFound(String),
    FileWriteError(String),
    ConnectionError,
    ParseError,
}

/// The description that `Error::message` returns for each condition.
pub open spec fn spec_message(e: Error) -> Seq<char> {
    match e {
        Error::DotEnvNotFound => ".env not found"@,
        Error::VariableNotFound(key) => "variable \""@ + key@ + "\" not found"@,
        Error::FileWriteError(file_name) => "failed to write to "@ + file_name@,
        Error::ConnectionError => "failed to get response from Gemini"@,
        Error::ParseError => "failed to parse response"@,
    }
}

impl Error {
    /// A human-readable description of the failure.
    pub fn message(&self) -> (r: String)
        ensures
            r@ == spec_message(*self),
    {
        match self {
            Error::DotEnvNotFound => String::from_str(".env not found"),
            Error::VariableNotFound(key) => {
                let mut s = String::from_str("variable \"");
                s.append(key.as_str());
                s.append("\" not found");
                s
            },
            Error::FileWriteError(file_name) => {
                let mut s = String::from_str("failed to write to ");
                s.append(file_name.as_str());
                s
            },
            Error::ConnectionError => String::from_str("failed to get response from Gemini"),
            Error::ParseError => String::from_str("failed to parse response"),
        }
    }
}

} // verus!
