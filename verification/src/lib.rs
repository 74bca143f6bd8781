//! Core of an assistant that turns a repository diff into AI-generated
//! commit messages and pull-request descriptions.
//!
//! The library covers the chat-completion exchange: resolving a provider
//! configuration from credential values, shaping the request body sent to
//! the provider's endpoint, and interpreting the response. The surrounding
//! binary gathers diffs, reads the process environment, and performs the
//! network call, handing this library plain values in both directions.

pub mod client;
pub mod errors;
pub mod prompts;
pub mod provider;
pub mod response;
pub mod wire;
