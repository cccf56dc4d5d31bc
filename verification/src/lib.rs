//! A tool box for backend services: JSON web tokens and their transport, relay-style
//! pagination and cursors, retry, reconnect, heartbeat and shutdown state machines, a
//! single-use value holder, workflow activity outcomes, and the data model and
//! decisions of a tool-using chat agent.
pub mod take;
pub mod text;
pub mod codec;
pub mod jwt;
pub mod auth;
pub mod pagination;
pub mod relay;
pub mod connection;
pub mod backoff;
pub mod serde_utils;
pub mod cli;
pub mod tasks;
pub mod openai;
pub mod agent;
pub mod safe_data;
pub mod websockets;
pub mod activity;
pub mod activities;
pub mod logging;
