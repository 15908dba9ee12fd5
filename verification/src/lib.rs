//! Verified core of the statline panel applet: popup navigation, config
//! handling, popup layout decisions and the launcher command sequences.

pub mod config;
pub mod app;
pub mod launch;
pub mod popup;
pub mod laws;
