//! What the routes of the backend answer with.

pub mod health;
pub mod user;
