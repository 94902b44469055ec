//! The diagnostic protocol: what is asked of the vehicle and how its
//! answers are read.

pub mod frame;
pub mod registry;
pub mod request;
pub mod response;
