//! Shared widget rules and theming for voice-chat-core.
//!
//! - [`theme`]: the dark palette every widget draws with.
//! - [`widgets`]: what the reusable UI primitives compute before any
//!   toolkit call: label texts, dropdown contents and selection, and the
//!   drawing steps of the level meters.

pub mod theme;
pub mod widgets;
