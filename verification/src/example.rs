//! A request and a repository with fixed values, to try the layers with.

use vstd::prelude::*;
use crate::business::add_user_use_case::add_user_input_message::{
    AddUserInputMessage,
    AddUserInputMessageView,
};
use crate::infrastructure::repositories::file_repository::FileRepository;

verus! {

/// A request with made-up names.
pub fn init_input_message() -> (message: AddUserInputMessage)
    ensures
        message@ == (AddUserInputMessageView {
            last_name: "Last Name Example"@,
            first_name: "First Name Example"@,
            email: "email@example.com"@,
        }),
{
    let last_name = String::from_str("Last Name Example");
    let first_name = String::from_str("First Name Example");
    let email = String::from_str("email@example.com");

    AddUserInputMessage::new(last_name, first_name, email)
}

/// A repository on a file below the working directory.
pub fn init_file_repository() -> (repository: Box<FileRepository>)
    ensures
        repository@ == "tmp/example.csv"@,
{
    let file_path = String::from_str("tmp/example.csv");
    Box::new(FileRepository::new(file_path))
}

} // verus!
