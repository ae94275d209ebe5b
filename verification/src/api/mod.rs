pub mod auth;
pub mod boards;
pub mod reply;
