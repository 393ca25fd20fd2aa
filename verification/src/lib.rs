//! A client library for a numerically-id-addressed forum API: items
//! (stories, comments, jobs, polls, poll options) and users are fetched by
//! id or username over HTTP and decoded from JSON.
//!
//! This crate holds the verified core: the item and user data model, the
//! JSON record decoding for each endpoint's payload, and the batch
//! fetch-and-join pipeline (batch item fetch, author resolution with
//! conditional skip, positional join). The HTTP transport itself lives
//! outside the library; callers hand each endpoint's response text to the
//! decoders here and each batch of leaf outcomes to the pipeline here.

#![verifier::loop_isolation(false)]

pub mod decode;
pub mod json;
pub mod pipeline;
pub mod types;

use vstd::prelude::*;

verus! {

/// Ways a client request can fail.
#[derive(Debug)]
pub enum HnClientError {
    /// No item exists under this id.
    ItemNotFoundError(u32),
    /// No user exists under this username.
    UserNotFoundError(String),
    /// The backend failed: a transport failure, or a payload the decoders
    /// reject. Carries the failure's description.
    BackendError(String),
}

} // verus!
