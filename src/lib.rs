//! Verified core of a command-line tool for inspecting jobs on a remote
//! batch-scheduling cluster: the interactive dashboard's layout, marquee
//! scrolling, input handling and row model, plus the remote query builders
//! and small text helpers they rely on.

pub mod config;
pub mod dashboard;
pub mod feed;
pub mod hist;
pub mod layout;
pub mod logs;
pub mod scroll;
pub mod price;
pub mod ssh;
pub mod text;
