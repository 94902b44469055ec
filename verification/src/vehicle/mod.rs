//! The vehicle's state as the decoder sees it.

pub mod data;
