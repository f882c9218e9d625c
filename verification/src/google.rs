//! What the dashboard keeps of its sign-in with the remote services.

pub mod authentication;
