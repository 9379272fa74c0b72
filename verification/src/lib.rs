//! Client for the ConoHa compute REST API: token acquisition, resource
//! listing and server lifecycle actions, with the transport left to the caller.

pub mod client;
pub mod http;
pub mod json;
pub mod text;
pub mod types;
