//! Label-based TCP tunnel: the rules of the protocol, of the broker and of the agents.

pub mod agent;
pub mod broker;
pub mod cli;
pub mod dial;
pub mod error;
pub mod labels;
pub mod laws;
pub mod protocol;
pub mod session;
pub mod text;
pub mod transport;
pub mod wire;

pub use agent::AgentClient;
pub use broker::Broker;
pub use error::Error;
