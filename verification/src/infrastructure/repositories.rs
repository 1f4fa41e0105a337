pub mod file_repository;
