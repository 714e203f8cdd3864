//! A watcher for a game's settings file: where the file lives, how a raw
//! stream of file-system events is coalesced into change signals, how a
//! change is read back into an offset value or a failure, and what the
//! long-lived watcher task does with each event.
pub mod commands;
pub mod debounce;
pub mod location;
pub mod reader;
pub mod task;
