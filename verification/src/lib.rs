//! Verified decoding of a media device's capability graph.
//!
//! A kernel media controller reports its device identity and its topology
//! (entities, interfaces, pads, links) through fixed-layout records.  This
//! crate holds the verified half of that query: the raw records, handed over
//! as plain values, are decoded into safe value types, and the two-phase
//! sizing/fetch protocol with its optimistic version check is carried out by
//! functions whose contracts pin down every outcome.  The unverified half --
//! opening the device node and issuing the ioctls -- lives outside this crate
//! and only moves plain values in and out.

pub mod cstr;
pub mod device;
pub mod raw;
pub mod topology;
