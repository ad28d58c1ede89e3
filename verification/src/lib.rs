//! A handle table that bridges a path-addressed host storage namespace to the
//! flat, identifier-addressed interface of a remote-file-protocol server.
//!
//! The library owns every decision of the bridge: which identifier an open
//! file gets, how an open-flag bitmask is read, how a host outcome becomes a
//! reply or a typed failure. An open file is any resource that can be read
//! and written at an offset; the calls that suspend in the host are made by
//! the caller, which hands their outcomes in as plain values.

pub mod error;
pub mod mode;
pub mod access;
pub mod handles;
pub mod device;
pub mod records;
pub mod bridge;
pub mod memory;
