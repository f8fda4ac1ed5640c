//! A client for a diagram-modelling service that is driven by JSON-RPC tool
//! calls: request envelopes, response interpretation, identifier extraction
//! and the workflow that chains them. Beside it stand a few records and error
//! types of the server and of its companions.

pub mod database;
pub mod envelope;
pub mod fusion;
pub mod identifier;
pub mod json;
pub mod laws;
pub mod response;
pub mod sample;
pub mod step;
pub mod tasklist;
pub mod workflow;
