//! Plugin dispatch engine of a webhook gateway.
//!
//! Inbound requests are routed by path to a trigger plugin, and from there
//! through an optional checker into a terminal handler. The modules here hold
//! the configuration model, the plugin registry, the bridge request handed to
//! plugins, and the pipeline state machine; driving the network and calling
//! into loaded plugin modules is left to the embedding program.
use vstd::prelude::*;

pub mod bridge;
pub mod config;
pub mod err;
pub mod interpreted;
pub mod pipeline;
pub mod registry;
pub mod tls;

verus! {

} // verus!
