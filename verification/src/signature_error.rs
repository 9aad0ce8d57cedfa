use vstd::prelude::*;

verus! {

/// Error type for signature operations: a free-text message and nothing else.
#[derive(Debug)]
pub struct SignatureError {
    message: String,
}

impl View for SignatureError {
    type V = Seq<char>;

    /// The message, as a sequence of characters.
    closed spec fn view(&self) -> Seq<char> {
        self.message@
    }
}

impl SignatureError {
    /// Creates a new signature error carrying `message`.
    #[must_use]
    pub fn new(message: String) -> (error: Self)
        ensures
            error@ == message@,
    {
        Self { message }
    }

    /// Returns the error message.
    #[must_use]
    pub fn message(&self) -> (text: &str)
        ensures
            text@ == self@,
    {
        self.message.as_str()
    }
}

} // verus!
