//! Domain values whose construction enforces the server's rules.

pub mod username;
pub mod email;
pub mod message;
pub mod password;
