use vstd::prelude::*;

verus! {

/// Why a user could not be added: a message for a person to read. There is
/// one kind of failure only, whatever its cause.
#[derive(Debug)]
pub struct AddUserError {
    error_message: String,
}

impl View for AddUserError {
    type V = Seq<char>;

    closed spec fn view(&self) -> Seq<char> {
        self.error_message@
    }
}

impl AddUserError {
    /// The text that `to_string` gives for a message.
    pub open spec fn sentence(error_message: Seq<char>) -> Seq<char> {
        "A problem occurred while adding a new user : "@ + error_message
    }

    pub fn new(error_message: String) -> (error: Self)
        ensures
            error@ == error_message@,
    {
        Self { error_message }
    }

    pub fn get_error_message(&self) -> (error_message: &String)
        ensures
            error_message@ == self@,
    {
        &self.error_message
    }

    /// The message behind a fixed introduction.
    pub fn to_string(&self) -> (text: String)
        ensures
            text@ == Self::sentence(self@),
    {
        let mut text = String::from_str("A problem occurred while adding a new user : ");
        text.append(self.error_message.as_str());
        text
    }
}

} // verus!
