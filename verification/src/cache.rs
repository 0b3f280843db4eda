//! The cache connection's start-up check and the cache's error texts.

use vstd::prelude::*;

use crate::text::{concat2, concat3, text_eq};

verus! {

/// Errors of the cache client; each keeps the underlying failure's text.
pub enum CacheError {
    RedisError(String),
    SerializationError(String),
    UnknownError(String),
}

/// The text that describes a cache error.
pub open spec fn cache_error_text(e: CacheError) -> Seq<char> {
    match e {
        CacheError::RedisError(m) => "Redis error: "@ + m@,
        CacheError::SerializationError(m) => "Serialization error: "@ + m@,
        CacheError::UnknownError(m) => "Unknown error: "@ + m@,
    }
}

impl CacheError {
    /// The text that describes this error.
    pub fn to_text(&self) -> (res: String)
        ensures
            res@ == cache_error_text(*self),
    {
        match self {
            CacheError::RedisError(m) => concat2("Redis error: ", m.as_str()),
            CacheError::SerializationError(m) => concat2("Serialization error: ", m.as_str()),
            CacheError::UnknownError(m) => concat2("Unknown error: ", m.as_str()),
        }
    }
}

/// The start-up check of a cache connection, from the answer to `PING`:
/// anything but `PONG` is refused, with a text that says why.
pub fn check_ping_reply(reply: Result<String, String>) -> (res: Result<(), String>)
    ensures
        match reply {
            Ok(p) => if p@ == "PONG"@ {
                res is Ok
            } else {
                res matches Err(m) && m@ == "Failed to ping Redis, unexpected response: "@ + p@ + "."@
            },
            Err(e) => res matches Err(m) && m@ == "Failed to ping Redis: "@ + e@ + "."@,
        },
{
    match reply {
        Ok(p) => {
            if text_eq(p.as_str(), "PONG") {
                Ok(())
            } else {
                Err(concat3("Failed to ping Redis, unexpected response: ", p.as_str(), "."))
            }
        },
        Err(e) => Err(concat3("Failed to ping Redis: ", e.as_str(), ".")),
    }
}

} // verus!
