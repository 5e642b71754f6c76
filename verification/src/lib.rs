//! The decisions of a gateway that serves chat completions and embeddings
//! through local llama.cpp servers.
//!
//! Everything here computes on plain values. Sending requests, reading the
//! environment, spawning processes and the clock belong to the application.
pub mod text;
pub mod tokens;
pub mod reply;
pub mod endpoints;
pub mod ids;
pub mod chat;
pub mod embeddings;
pub mod launch;
pub mod servers;
