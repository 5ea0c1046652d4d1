//! What the login manager tells about sessions.

pub mod login;
