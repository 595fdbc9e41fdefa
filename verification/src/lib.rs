//! Core logic of an embeddable interactive command console: chorded-key
//! action matching, command registration and dispatch with shell-like
//! tokenization, scrollback viewport windowing, and command-history
//! filtering and navigation.
//!
//! The host application owns the render loop, input devices and widget
//! layout; it feeds decoded key events and scroll deltas into this crate
//! and renders the buffers and viewport windows it gets back.

pub mod actions;
pub mod commands;
pub mod keys;
pub mod strutil;
pub mod tokenizer;
pub mod ui;
