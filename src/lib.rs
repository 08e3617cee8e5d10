//! Name-resolving list relay: resolves a list's display name to its
//! identifier through a directory, caches the resolution, and decides how a
//! request is forwarded to the resource service and what is answered.

pub mod directory;
pub mod cache;
pub mod gateway;
pub mod laws;
