//! The error of the catalog.

use vstd::prelude::*;
use vstd::string::StringExecFns;

verus! {

/// A text that names no theme of the catalog.
#[derive(Debug, Clone, PartialEq, Eq)]
pub struct UnknownTheme {
    /// The text as it was given, before normalization.
    pub input: String,
}

impl UnknownTheme {
    /// The message text: a fixed heading followed by the rejected input.
    pub open spec fn message_text(self) -> Seq<char> {
        "Unknown theme: "@ + self.input@
    }

    /// The message for a user: it names the rejected input.
    pub fn message(&self) -> (message: String)
        ensures
            message@ == self.message_text(),
    {
        let heading = String::from_str("Unknown theme: ");
        heading.concat(self.input.as_str())
    }
}

} // verus!
