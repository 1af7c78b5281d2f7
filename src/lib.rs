//! Assembly layer of a blockchain node: the decisions that wire storage,
//! consensus plug-ins, transaction pool, network and RPC into one running node.

pub mod components;
pub mod config;
pub mod network;
pub mod pipeline;
pub mod rpc;
pub mod status_sinks;
pub mod tasks;
