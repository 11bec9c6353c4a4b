//! Command entry points of the desktop shell.
pub mod cloud_sync;
