//! The notification service: users connected over a websocket receive the
//! events of their channels, and send messages and listing requests back.

pub mod dto;
pub mod event;
pub mod handler;
pub mod service;

use vstd::prelude::*;

use crate::config::ConfigLoadError;

verus! {

/// The settings the notification service reads at start-up. The `*_env`
/// fields name the environment variables that hold secrets and addresses.
pub struct AppConfig {
    pub port: u16,
    pub jwt_deckey_env: String,
    pub database_url_env: String,
    pub cache_url_env: String,
    pub mq_url_env: String,
}

/// The configuration the notification service starts with: the one loaded
/// from the file next to the executable, or the reason it could not be
/// loaded.
pub fn initialize_config(loaded: Result<AppConfig, ConfigLoadError>) -> (res: Result<
    AppConfig,
    ConfigLoadError,
>)
    ensures
        res == loaded,
{
    let config = loaded?;
    Ok(config)
}

} // verus!
