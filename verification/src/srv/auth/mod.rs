//! The authentication service: registration and login, answered with a token.

pub mod dto;
pub mod handler;
