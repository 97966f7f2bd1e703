//! A conversion service core: decides how a request becomes a PDF document,
//! names the per-request scratch files, and sequences the steps that a
//! driver performs against the filesystem, the rendering engine and the
//! browser-automation endpoint.
pub mod naming;
pub mod pipeline;
pub mod request;
pub mod runs;
pub mod shape;
