//! Webhook events from a work-tracking and CI platform: decoded, verified
//! against the platform's own record, and dispatched to a handler by type.
//!
//! - [`json`], [`field`]: JSON documents as trees, and their typed members.
//! - [`ident`], [`time`], [`web`], [`text`]: UUIDs, points in time, URLs and
//!   numbers, each with its text.
//! - [`event`], [`resource`], [`encode`]: the notification, the event and
//!   the build-completion resource; how they are read and written.
//! - [`verification`]: the lookup that confirms an event, and its verdict.
//! - [`dispatch`]: the states of one request, and the handlers.
//! - [`error`]: what can go wrong.
//! - [`laws`]: what holds of all of it.

use vstd::prelude::*;

pub mod dispatch;
pub mod encode;
pub mod error;
pub mod event;
pub mod field;
pub mod ident;
pub mod json;
pub mod laws;
pub mod resource;
pub mod text;
pub mod time;
pub mod verification;
pub mod web;
