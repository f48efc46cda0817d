//! The registry of honeypot nodes connected to the manager.
pub mod manager;
pub mod node;
