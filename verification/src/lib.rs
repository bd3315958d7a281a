//! Query-driven telemetry streams for a Riemann dashboard.
//!
//! A dashboard widget subscribes to a Riemann index over a websocket, scoped by
//! a query. This crate holds the rules of such a subscription: how the endpoint
//! is derived from a base address and a query, when a widget has to reconnect,
//! how inbound messages become events, and how the bounded history of events is
//! kept. Connections and rendering are left to the host application.

pub mod buffer;
pub mod confirm_button;
pub mod controller;
pub mod endpoint;
pub mod event;
pub mod json;
pub mod sequence;
pub mod text;
pub mod views;
pub mod workspace;

pub use endpoint::base_url;
pub use endpoint::websocket_url;
