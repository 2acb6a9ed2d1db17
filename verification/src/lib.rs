//! Build-time binding-generation pipeline: orchestrate a library build of a
//! native module, resolve the shared-library artifact it produced from the
//! build tool's structured event stream, normalize the artifact path for the
//! host's dynamic loader, and describe the fixed entry point that emits the
//! bindings.  The modules here hold the decision and parsing logic of that
//! pipeline; process spawning and the actual dynamic load live outside the
//! verified library.

pub mod events;
pub mod loader;
pub mod pipeline;
pub mod program;
pub mod registry;
pub mod resolver;
pub mod results;
