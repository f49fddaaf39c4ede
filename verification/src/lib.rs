//! Native-side core of a desktop application shell: a resolver for a secret
//! bound into the artifact at build time, and the command bridge through
//! which an embedded front-end invokes named native operations.

pub mod bridge;
pub mod secret;
