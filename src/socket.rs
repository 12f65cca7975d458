//! Socket addresses and multicast membership requests.
pub mod addr;
pub mod multicast;
pub mod text;
