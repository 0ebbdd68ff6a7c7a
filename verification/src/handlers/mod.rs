pub mod status;
pub mod users;
