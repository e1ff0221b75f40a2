pub mod app_config;
mod clock;
pub mod config;
pub mod decimal;
pub mod entity;
pub mod errors;
pub mod handlers;
pub mod models;
pub mod password;
pub mod seqs;
pub mod state;
pub mod store;
pub mod text;
pub mod utils;
