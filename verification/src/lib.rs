//! The decisions of a small desktop shell: which theme a name stands for, what
//! a command asks of the host window, and how the developer-tools flag moves.
//! The host performs what is asked; nothing here touches a window.

pub mod bootstrap;
pub mod commands;
pub mod error;
pub mod theme;
pub mod window;
