//! A small interactive command interpreter: each input line is split into
//! whitespace-separated tokens and dispatched either to a builtin directive or
//! to an external program. The decisions live here; the host program performs
//! the reading, writing, directory changes and process spawning.
pub mod tokens;
pub mod dispatch;
pub mod shell;
