//! Endpoint resources: the parameters and answers of each part of the API,
//! and the paths under which they live.

pub mod chat;
pub mod embeddings;
pub mod files;
pub mod models;
pub mod responses;
