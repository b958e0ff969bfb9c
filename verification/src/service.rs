pub mod auth;
pub mod health;
pub mod result;
pub mod user;
