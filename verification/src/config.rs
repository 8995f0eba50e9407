//! Errors of the gateway configuration loader.

use vstd::prelude::*;

verus! {

/// A failure while loading the model list.
#[derive(Debug)]
pub enum Error {
    /// The model list was not valid JSON for its schema; holds the
    /// parser's description of the failure.
    ModelListParsing(String),
}

impl Error {
    /// The text the error displays.
    pub fn to_display_string(&self) -> (text: String)
        ensures
            text@ == "parsing model_list failed"@,
    {
        match self {
            Error::ModelListParsing(_) => "parsing model_list failed".to_owned(),
        }
    }
}

} // verus!
