//! The serving core of a local language-model API: a bounded admission queue,
//! a single worker that runs one generation session at a time, and the bridge
//! that streams fragments to the caller and persists the finished message.

pub mod assistant;
pub mod auth;
pub mod conversations;
pub mod database;
pub mod engine;
pub mod entities;
pub mod outside;
pub mod queue;
pub mod schemas;
pub mod services;
pub mod session;
pub mod settings;
pub mod stream;
