//! Maintenance and build-time rules for a wrapper around a vendored native
//! image-codec library.
//!
//! The heart of the crate is a verified model of the vendoring pipeline:
//! resolve the pinned upstream release tag from the wrapper's own version,
//! synchronize a local checkout of the upstream sources to exactly that tag,
//! run the upstream generator to produce the two normalized basefiles, and
//! relocate them into the wrapper's source tree. The pipeline itself only
//! decides; the process and filesystem work is performed by an unverified
//! driver that feeds each outcome back as an event.
//!
//! Alongside the pipeline stand the build-time rules: the namespace filter
//! and copy-restriction set applied when bindings are generated, and the
//! four sentinel mode constants that the generator cannot see.

pub mod sentinel;

pub mod error;

pub mod version;

pub mod rules;

pub mod config;

pub mod pipeline;
