pub mod add_user_port;
