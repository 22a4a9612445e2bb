//! Configuration and presentation logic for a native popover: the values a
//! host application chooses, and the exact requests that a native popover
//! object receives for them.

pub mod geometry;
pub mod popover;
