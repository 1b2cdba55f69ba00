//! A minimal memory-mapped-file access layer: open a file read-only or
//! read-write, copy byte ranges into and out of the mapped region, flush a
//! sub-range to durable storage, and tear the mapping down.
//!
//! The mapping lifecycle is modelled over explicit byte state: a [`mapping::DiskFile`]
//! holds the durable contents of the backing file, and a [`mapping::Mapping`] is the
//! owned handle pairing the mapped bytes with their access mode. Platform
//! system calls live outside this crate; everything here — size negotiation,
//! argument validation, the copy and flush semantics, and the open-sequencing
//! state machine — is verified.

pub mod acquire;
pub mod api;
pub mod mapping;
pub mod region;
pub mod size;

pub use size::DEFAULT_SIZE;
