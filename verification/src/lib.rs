//! Verified core of an interactive multi-line REPL input editor.
//!
//! The library owns the text buffer being composed, the screen-cursor
//! projection of the edit position, the inline completion-suggestion state,
//! and the event dispatcher that keeps the three consistent under a stream
//! of discrete input events.  Terminal I/O, the evaluator, the history store
//! and the completion provider are external collaborators: the dispatcher
//! only returns the intents they should carry out.

pub mod buffer;
pub mod chars;
pub mod cursor;
pub mod detect;
pub mod dispatch;
pub mod suggestion;
