//! OpenHanse: a hub that registers peers, decides between direct and
//! relayed delivery, and relays chat messages; gateway and command-line
//! configuration logic around it.
pub mod text;
pub mod model;
pub mod clock;
pub mod ids;
pub mod peers;
pub mod relay;
pub mod hub;
pub mod hub_laws;
pub mod gateway;
pub mod gateway_state;
pub mod gateway_flow;
pub mod gateway_laws;
pub mod runtime;
pub mod cli;
pub mod cli_laws;
pub mod web;
pub mod runner;
pub mod hub_api;
pub mod runner_laws;
