pub mod devices;
pub mod users;
