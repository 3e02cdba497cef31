//! A protocol-agnostic TCP session manager: a caller-driven control plane that
//! spawns one worker per outbound connection, a pluggable resumable decoder
//! contract, and a reference line-splitting decoder.

pub mod channel;
pub mod codec;
pub mod dispatcher;
pub mod network;
pub mod session;
