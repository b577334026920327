//! Server-side call routing for a minimal RPC framework.
//!
//! An inbound call is identified by a service name and a method name; the
//! router locates the handler registered under the canonical path
//! `/{service}/{method}` and forwards the call's request envelope to it,
//! returning the handler's response or a structured error.

pub mod body;
pub mod context;
pub mod error;
pub mod handler;
pub mod request;
pub mod response;
pub mod router;
