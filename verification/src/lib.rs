//! The verified core of the Honeybee honeypot orchestration framework: the
//! message protocol, the configuration, the registries of nodes and backends
//! with the commands they answer, message framing, and the decisions of the
//! CLI, the WebSocket gateway and the WebSocket proxy.
pub mod backend_manager;
pub mod cli;
pub mod config;
pub mod gateway;
pub mod json;
pub mod logging;
pub mod message;
pub mod node;
pub mod node_manager;
pub mod proxy;
pub mod text;
