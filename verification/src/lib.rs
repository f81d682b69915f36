//! Pieces of a gossip node: the indexation feature block of an output, the
//! peer service that keeps track of the peers of a node, and random values
//! for exercising a node.

pub mod message;
pub mod network;
pub mod random;
