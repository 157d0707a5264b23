//! A real-time coordination hub for a distributed photo-gallery network.
//!
//! Stateless pods (content providers) register with the hub and publish
//! directory listings; clients (viewers) subscribe to see a live list of
//! pods and their content, and can request individual assets on demand.
//! The hub is the single source of truth for which pods and clients are
//! connected and what each pod currently serves.

mod clock;

pub mod client;
pub mod hub;
pub mod ids;
pub mod paths;
pub mod protocols;
pub mod websocket;
