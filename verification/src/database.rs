//! What can go wrong in the database layer of the server.

pub mod error;
