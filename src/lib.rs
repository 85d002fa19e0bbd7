pub mod catalog;
pub mod envelope;
pub mod handlers;
pub mod models;
pub mod statements;
