//! Request/response invocation of remote methods over a query-capable
//! publish/subscribe transport: request metadata assembly, the per-call
//! decision machine, and reply interpretation.

pub mod message;
pub mod message_id;
pub mod rpc;
pub mod laws;
