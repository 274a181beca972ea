//! Keeps a Discord Rich Presence display synchronized with values a
//! user-authored Lua script produces. Each presence field is sourced
//! as a fixed literal, a function polled on an interval, or a
//! generator the script drives itself; all updates funnel into one
//! aggregated state that is republished on every change.
//!
//! This crate holds the verified core: the shape model of script
//! values, the field decoders, the classifier that picks each field's
//! update strategy, the per-worker emission decisions, the aggregator
//! with its publish/clear effects, and the startup decisions. The Lua
//! virtual machine, the worker threads and the IPC connection live in
//! the unverified rim around it.

use vstd::prelude::*;

pub mod activity;
pub mod command;
pub mod lua;
pub mod presence;
pub mod script;
pub mod text;

verus! {

} // verus!
