//! Utilities used by the motion profiles: the numeric capability traits and
//! reusable checks that hold for every profile.

pub mod testing;
pub mod traits;
