pub mod index;
pub mod user;
