//! A Raft consensus node: its persistent and volatile state, the handlers of
//! the Raft RPCs, the election timer and the decisions that drive a node
//! through its follower, candidate and leader roles.
//!
//! Everything that talks to the network, to clocks or to threads stands
//! outside this library; what decides lives here, with its contract.

pub mod state;
pub mod rpc;
pub mod utils;
pub mod timer;
pub mod node;
pub mod laws;
