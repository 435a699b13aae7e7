//! Planning and encoding logic for turning an Xbox 360 disc image into a
//! Games-on-Demand package: payload geometry, per-part hash tables and their
//! chaining, destination naming, header fields and the order of the steps.
//! Around that, what a front end needs: reading a request, answering it,
//! listing images and packages, and planning the transfer of a package to a
//! device.
//!
//! Everything here computes on plain values. Reading the image, writing the
//! package and talking to a server are left to the caller.

pub mod convert;
pub mod digest;
pub mod geometry;
pub mod hash_list;
pub mod header;
pub mod layout;
pub mod listing;
pub mod request;
pub mod stitch;
pub mod text;
pub mod title;
pub mod transfer;
