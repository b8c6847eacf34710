//! How the output of the shadow terminal is shaped and sent.

pub mod diff;
pub mod foreign;
pub mod native;
