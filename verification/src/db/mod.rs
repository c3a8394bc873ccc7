//! In-memory tables of the application's persisted data and their rules.
pub mod table;
pub mod modes_repo;
pub mod vocabulary_repo;
pub mod providers_repo;
pub mod settings_repo;
pub mod history_repo;
pub mod database;
