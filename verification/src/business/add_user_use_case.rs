//! Adding a user: the request, the answer, and the interactor between them.

pub mod add_user_input_message;
pub mod add_user_interactor;
pub mod add_user_output_message;
