//! The manager side of the backend protocol: backends, the framing of
//! their messages, and the commands they send.
pub mod backend;
pub mod framing;
pub mod manager;
