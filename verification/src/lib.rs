//! Core logic of a controller for the auxiliary buttons of a Logitech G600
//! mouse: decoding the raw event blocks read from the grabbed device node,
//! naming the button behind a scan code, and choosing the shell command bound
//! to a button for the application that has focus.
//!
//! Everything here is pure: opening and grabbing the device, reading from it,
//! asking the window system for the focused window and running commands are
//! left to the caller, which hands the bytes and texts it obtained to the
//! functions of this crate.

pub mod button;
pub mod config;
pub mod device;
pub mod dispatch;
pub mod event;
pub mod focus;
pub mod main_loop;
mod outside;
