//! Headless WhatsApp Web engine logic: engine status bookkeeping,
//! configuration documents, and the scripts injected into the web view.

pub mod script;
pub mod engine;
pub mod config;
