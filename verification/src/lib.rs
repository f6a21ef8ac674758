//! The decisions of the Flow dictation app.
pub mod case;
pub mod commands;
pub mod effect;
pub mod events;
pub mod hallucination;
pub mod hotkeys;
pub mod models;
pub mod permissions;
pub mod pipeline;
pub mod search;
pub mod server;
pub mod session;
pub mod settings;
pub mod shortcut;
pub mod state;
pub mod stt_test;
pub mod text;
