//! Lifecycle supervision of one externally launched application server:
//! start and stop decisions, log forwarding, and the cooperative shutdown
//! exchange with the server's management endpoint.

pub mod config;
pub mod events;
pub mod http;
pub mod locate;
pub mod pump;
pub mod shutdown;
pub mod stop;
pub mod supervisor;
pub mod text;
