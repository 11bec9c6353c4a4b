//! Core of a terminal application, independent of any user-interface toolkit.
//!
//! - `app_event` holds the typed event bus on which backend services announce what
//!   happened; `channel` is the broadcast channel behind it, and `reading` says what a
//!   subscriber can rely on.
//! - `app_core` holds the facade through which a user interface talks to the backend
//!   managers. Each of its methods says which manager is to be called, with what, and
//!   how the manager's reply becomes the answer (`request`, `session`,
//!   `quick_commands`, `cloud_sync`).
//! - `close` takes the closing of a session step by step, `cleanup` decides what happens
//!   to its files, and `observability` holds the log records that are written on the way.
//! - `cmd` holds the command entry points of the desktop shell.
#![allow(unused_imports)]

pub mod app_core;
pub mod app_event;
pub mod channel;
pub mod cleanup;
pub mod close;
pub mod cloud_sync;
pub mod cmd;
pub mod error;
pub mod observability;
pub mod quick_commands;
pub mod reading;
pub mod request;
pub mod session;
