//! The typed resources of the modeled API, each with its decoder and
//! its place in the two-phase lifecycle.

pub mod feeds;
pub mod notifications;
pub mod repository;
pub mod root;
pub mod user;
