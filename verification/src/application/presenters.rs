pub mod add_user_presenter;
