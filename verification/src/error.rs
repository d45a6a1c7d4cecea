use vstd::prelude::*;
use vstd::string::StringExecFns;

verus! {

/// Startup-fatal errors: the roster source could not be read, or it held
/// no usable names. Neither can arise once a session is running.
#[derive(Debug)]
pub enum AppError {
    /// The names source failed to read; holds the underlying error text.
    NamesFileError(String),
    /// The names source held no non-blank line.
    NoNamesFound,
}

impl AppError {
    /// The text `message` returns for each variant.
    pub open spec fn spec_message(self) -> Seq<char> {
        match self {
            AppError::NamesFileError(e) => "Failed to read names file: "@ + e@,
            AppError::NoNamesFound => "No names found in file"@,
        }
    }

    /// A human-readable description of the error.
    pub fn message(&self) -> (m: String)
        ensures
            m@ == self.spec_message(),
    {
        match self {
            AppError::NamesFileError(e) => {
                let mut m = "Failed to read names file: ".to_owned();
                m.append(e.as_str());
                m
            },
            AppError::NoNamesFound => "No names found in file".to_owned(),
        }
    }
}

} // verus!
