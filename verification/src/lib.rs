//! Socket-selection hook programs.
//!
//! A hook of this kind is loaded into the kernel once and then attached to one
//! or more network interfaces; on every new incoming connection the kernel
//! hands the hook a fixed-layout record describing the connection. This crate
//! holds the decision logic of that control plane — when loading and attaching
//! may proceed, and which error each misstep earns — and the read-only view a
//! hook invocation gets of its record. The OS calls themselves (name
//! resolution, link creation) are performed by unverified glue around this
//! library, which feeds their answers back into the decision functions here.

pub mod context;
pub mod program;
