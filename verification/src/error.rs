//! The two generation-time failures. Both are terminal for the declaration
//! being processed: the caller reports the message through its diagnostic
//! channel and emits nothing for that declaration.

use vstd::prelude::*;

verus! {

/// Why a generation run failed.
#[derive(Clone, Copy, Debug, PartialEq, Eq, Structural)]
pub enum ProjectionError {
    /// The annotated declaration is not a plain named-field record
    /// (it is a sum type, a positional-field record, a unit record,
    /// or its field names are not distinct).
    UnsupportedShape,
    /// The configuration attached to the annotation is malformed:
    /// an unrecognized key, a repeated key, or a value that is not a boolean.
    MalformedConfig,
}

impl ProjectionError {
    /// The human-readable diagnostic text for this failure.
    pub open spec fn message_spec(self) -> Seq<char> {
        match self {
            ProjectionError::UnsupportedShape => "projection supports only structs with named fields"@,
            ProjectionError::MalformedConfig => "projection arguments must be `option` or `result` with a boolean value"@,
        }
    }

    /// Render the diagnostic text.
    pub fn message(&self) -> (r: String)
        ensures
            r@ == self.message_spec(),
    {
        match self {
            ProjectionError::UnsupportedShape => String::from_str(
                "projection supports only structs with named fields",
            ),
            ProjectionError::MalformedConfig => String::from_str(
                "projection arguments must be `option` or `result` with a boolean value",
            ),
        }
    }
}

} // verus!
