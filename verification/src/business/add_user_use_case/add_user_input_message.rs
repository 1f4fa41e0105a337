use vstd::prelude::*;
use crate::business::InputMessage;

verus! {

/// The request to add a user: the three names, as they were typed.
pub struct AddUserInputMessage {
    last_name: String,
    first_name: String,
    email: String,
}

pub struct AddUserInputMessageView {
    pub last_name: Seq<char>,
    pub first_name: Seq<char>,
    pub email: Seq<char>,
}

impl View for AddUserInputMessage {
    type V = AddUserInputMessageView;

    closed spec fn view(&self) -> AddUserInputMessageView {
        AddUserInputMessageView {
            last_name: self.last_name@,
            first_name: self.first_name@,
            email: self.email@,
        }
    }
}

impl AddUserInputMessage {
    pub fn new(last_name: String, first_name: String, email: String) -> (message: Self)
        ensures
            message@ == (AddUserInputMessageView {
                last_name: last_name@,
                first_name: first_name@,
                email: email@,
            }),
    {
        Self { last_name, first_name, email }
    }

    pub fn get_last_name(&self) -> (last_name: &String)
        ensures
            last_name@ == self@.last_name,
    {
        &self.last_name
    }

    pub fn get_first_name(&self) -> (first_name: &String)
        ensures
            first_name@ == self@.first_name,
    {
        &self.first_name
    }

    pub fn get_email(&self) -> (email: &String)
        ensures
            email@ == self@.email,
    {
        &self.email
    }
}

impl InputMessage for AddUserInputMessage {

}

} // verus!
