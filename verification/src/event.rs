//! Events that the runloops tell the user interface of.

use vstd::prelude::*;

use crate::failure::Failure;

verus! {

/// The name under which the subgraph plugin is announced.
pub const SUBGRAPH_PLUGIN: &'static str = "surfpool-subgraph";

/// An event for the user interface.
#[derive(Debug)]
pub enum SimnetEvent {
    /// The network is up.
    Ready,
    /// The network cannot go on.
    Aborted(Failure),
    /// The RPC server has stopped.
    Shutdown,
    /// Something failed that the network can do without.
    Error(Failure),
    /// The plugin of this name is mounted.
    PluginLoaded(&'static str),
}

} // verus!
