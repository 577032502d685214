//! Stand-ins for system entry points that the oldest systems lack.

pub mod rtl_gen_random;
pub mod wspiapi;
