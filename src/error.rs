use vstd::prelude::*;

verus! {

/// Failures that end a resolution run.
#[derive(Clone, Copy, Debug, PartialEq, Eq, Structural)]
pub enum MetadataError {
    /// The record has neither an English nor a romanized title.
    NoTitleAvailable,
    /// The operator aborted a prompt that needs an answer.
    PromptCancelled,
}

impl MetadataError {
    /// A short message for the operator.
    pub fn message(&self) -> (r: String)
        ensures
            r@ == error_message_of(*self),
    {
        match self {
            MetadataError::NoTitleAvailable => String::from_str("No title available"),
            MetadataError::PromptCancelled => String::from_str("Prompt cancelled"),
        }
    }
}

/// The message shown for each failure.
pub open spec fn error_message_of(e: MetadataError) -> Seq<char> {
    match e {
        MetadataError::NoTitleAvailable => "No title available"@,
        MetadataError::PromptCancelled => "Prompt cancelled"@,
    }
}

} // verus!
