//! Target descriptions.

pub mod i586_ansi_windows_msvc;
