//! Bridge between a raw, table-based font container and its compressed
//! web-delivery counterpart.
//!
//! The heavy lifting lives in two collaborators: an external transcoding
//! engine that owns the font-table transforms and size computations, and a
//! compression backend that owns the entropy coding. This crate is the
//! verified glue between them: [`adapter`] presents the backend under the
//! fixed entry-point shape the engine calls, and [`protocol`] holds the
//! decisions of the two-phase size-then-convert conversion drive.

pub mod adapter;
pub mod backend;
pub mod protocol;
