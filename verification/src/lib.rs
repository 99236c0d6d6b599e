//! A minimal anonymous note-sharing library.
//!
//! Each note is identified by a short slug drawn from a fixed grammar and
//! stored as one file under a backing directory.  This crate holds the
//! verified core of the service: slug validation, random id generation,
//! HTML escaping and page rendering, excerpt computation, upload naming and
//! classification, content negotiation, and the request-level policy that
//! decides what each GET or POST does to the store.  File and network I/O
//! live outside the library; callers hand in what was read and carry out the
//! action the policy returns.

pub mod escape;
pub mod excerpt;
pub mod headers;
pub mod idgen;
pub mod negotiate;
pub mod policy;
pub mod render;
pub mod slug;
pub mod tmppath;
pub mod text;
pub mod upload;
