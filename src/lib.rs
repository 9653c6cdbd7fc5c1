//! Client-side core of a container-engine command line tool: where to
//! connect, which request paths to send, how to classify responses, the
//! interactive attach protocol and the raw-terminal guard.

pub mod error;
pub mod path;
pub mod response;
pub mod session;
pub mod target;
pub mod terminal;
