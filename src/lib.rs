//! Exploration of the performance boundary of a black-box classifier.
//!
//! The library holds the discrete core of the exploration engine: labelled
//! samples and halfspaces, the decisions the adherers take step by step, the
//! explorer's path queue and parent/child tree, and the remote classifier's
//! wire protocol and session state machine. Points and directions are type
//! parameters, so that the numerical work on them stays with the caller.

pub mod adherers;
pub mod api;
pub mod boundary_tools;
pub mod error;
pub mod explorers;
pub mod extensions;
pub mod sampling;
pub mod search;
pub mod tree;
pub mod wire;
