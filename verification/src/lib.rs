//! Core of a file-watching command runner: glob-style ignore patterns,
//! recursive tree scanning, change detection by maximum modification time,
//! and the watch-loop decision rule.

pub mod detector;
pub mod fstree;
pub mod matcher;
pub mod pattern;
pub mod watch;
