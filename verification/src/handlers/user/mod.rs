pub mod create;
pub mod delete;
pub mod get;
pub mod login;
pub mod logout;
