use vstd::prelude::*;

verus! {

/// An error met while carrying out a command, with a human-readable message.
#[derive(Debug)]
pub struct ProcessingError {
    message: String,
}

impl ProcessingError {
    /// The message this error carries.
    pub closed spec fn message_view(&self) -> Seq<char> {
        self.message@
    }

    pub fn new(message: String) -> (r: Self)
        ensures
            r.message_view() == message@,
    {
        Self { message }
    }

    pub fn message(&self) -> (r: &str)
        ensures
            r@ == self.message_view(),
    {
        self.message.as_str()
    }

    /// The text shown to a user: a fixed lead-in followed by the message.
    pub fn describe(&self) -> (r: String)
        ensures
            r@ == "Error while processing command: "@ + self.message_view(),
    {
        let lead = String::from_str("Error while processing command: ");
        lead.concat(self.message.as_str())
    }
}

} // verus!
