//! Settlement of compute tasks between users, AI agents and GPU nodes:
//! registries of participants, triple-signed task records, and an exact
//! split of each task's price between the agent and the node.

pub mod types;
pub mod split;
pub mod signing;
pub mod registry;
pub mod token;
pub mod program;
