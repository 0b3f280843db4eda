//! The split services: authentication and notification.

pub mod auth;
pub mod notify;
pub mod shared;
