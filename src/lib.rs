//! Navigation, filtering, modal and live-tail logic of a terminal dashboard
//! for a multi-tenant publish/subscribe cluster.
//!
//! The event loop, terminal rendering and the network clients live outside
//! this library; they hand events to [`update::update`] and carry out the
//! effects it returns.

pub mod admin;
pub mod config;
pub mod message;
pub mod modal;
pub mod resources;
pub mod store;
pub mod tail;
pub mod text;
pub mod update;
