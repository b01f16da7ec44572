//! The decision core of a tray-resident desktop shell.
//!
//! The shell keeps an application alive in the system tray: closing the main
//! window hides it, the tray icon and its menu bring it back, and a launch at
//! login starts hidden. Every handler here is a pure function from an event to
//! the list of commands the host has to carry out; `desktop` holds a small
//! model of what those commands do, and `laws` states what follows.

pub mod command;
pub mod desktop;
pub mod event;
pub mod launch;
pub mod laws;
pub mod menu;
pub mod shell;
