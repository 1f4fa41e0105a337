pub mod add_user_error;
