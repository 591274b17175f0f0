//! Change detection and notification for special-offer rental listings:
//! webhook authentication, the freshness diff against the persisted
//! snapshot, the rendering of a chat notification, and the decisions of the
//! background workflow that ties them together.

pub mod text;
pub mod listing;
pub mod freshness;
pub mod blocks;
pub mod webhook;
pub mod workflow;
