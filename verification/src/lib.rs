//! Signaling core for a browser-to-browser file transfer: a transient
//! session store correlating connection offers with their answers, the
//! request handlers peers use to publish and retrieve them, and the
//! client-side state machine that drives one connection attempt from
//! "no peer known" to an open data channel.

pub mod controller;
pub mod cors;
pub mod ident;
pub mod service;
pub mod store;
