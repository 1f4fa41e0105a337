pub mod user_entity;
