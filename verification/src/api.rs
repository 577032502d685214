//! Tables of target API levels.

pub mod windows;
