//! Client core for a game-statistics web API that authenticates every call
//! with an MD5 signature and a short-lived session token.
//!
//! The library holds the verified logic: signature input assembly, the
//! session lifecycle (liveness, acceptance of a creation response), request
//! URL construction, response classification, and the per-endpoint argument
//! checks. Network transport and generic JSON decoding live outside it.

pub mod client;
pub mod error;
pub mod fields;
pub mod game;
pub mod gods;
pub mod motd;
pub mod player;
pub mod response;
pub mod session;
pub mod session_info;
pub mod sign;
pub mod text;
pub mod time;
pub mod url;
