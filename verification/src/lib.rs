//! A verified model of a pre-boot chainloader: it scans the storage volumes
//! the firmware exposes, picks the first one holding the well-known secondary
//! bootloader image, runs a fixed operator-visible countdown, and hands
//! control to that image. Every fallible stage either succeeds or halts the
//! whole pipeline with a single fatal report; there are no retries.

pub mod controller;
pub mod countdown;
pub mod errors;
pub mod laws;
pub mod path_id;
pub mod pipeline;
