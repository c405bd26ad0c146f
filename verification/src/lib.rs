//! A dead-man's switch in two halves.
//!
//! A publisher pushes a marker file to a remote host on a fixed interval; a
//! monitor on that host watches the marker's modification time and raises an
//! alert when it stops changing, and another when it changes again. The only
//! channel between the two is the marker's timestamp.
//!
//! This crate holds the decisions of both halves and proves what it says of
//! them. It touches neither the network nor the disk: each half is written
//! as a machine that is told what happened and answers what to do next, and
//! a daemon around it does the sleeping, reading and sending.
//!
//! - [`monitor`]: the up/down state machine and the laws of its alerts.
//! - [`watcher`]: the monitor's configuration, startup checks and log lines.
//! - [`notify`]: the text of an alert and the mail message that carries it.
//! - [`transfer`]: one attempt to deliver the marker, step by step, and the
//!   classification of its failures.
//! - [`publisher`]: the publisher's configuration, credential, startup
//!   checks and log lines.
//! - [`paths`]: how a directory and a file name make a path.
//! - [`config`]: what is reported when a configuration cannot be loaded.

pub mod config;
pub mod monitor;
pub mod notify;
pub mod paths;
pub mod publisher;
pub mod transfer;
pub mod watcher;
