//! Messages between the manager and its backends (CLI, web and API clients).
pub mod backend_to_manager;
pub mod backend_type;
pub mod manager_to_backend;
