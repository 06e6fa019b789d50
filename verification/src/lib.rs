//! A typing-exercise engine: target words, keystroke logs, incremental
//! correctness classification, word-boundary transitions, and a one-shot
//! completion signal, together with the word-list parsing and the small
//! pieces of UI state that drive the surrounding terminal program.

pub mod keys;
pub mod word;
pub mod channel;
pub mod ui;
pub mod lang;
pub mod color_preview;
