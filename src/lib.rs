//! Supervision of a local port forward to a cluster service: the choice of a
//! local port, the command line of the tunnel, the reading of its output and
//! the restart policy, each stated and proved.

pub mod config;
pub mod port_search;
pub mod runner;
pub mod supervisor;
