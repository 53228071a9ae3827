//! A verified job-lifecycle engine for a directory-watching download launcher.
//!
//! An operator drops a trigger file whose name ends in `.ytdl` into a watched
//! directory. The engine claims the trigger by an atomic rename to a
//! `.running` sibling, has an external downloader run against it, and then
//! either removes the running file (success) or renames it to `.failed` and
//! records a diagnostics file (failure). All decisions live here, as a pure
//! state machine over byte-string paths; the surrounding process performs the
//! filesystem operations and feeds their outcomes back as events.

pub mod diagnostics;
pub mod engine;
pub mod lifecycle;
pub mod paths;
