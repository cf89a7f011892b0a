//! Provisioning of a versioned Vue language-server toolchain for a project:
//! locating or installing the language server, a TypeScript SDK and a
//! companion TypeScript plugin, wiring them per project, and mapping
//! completion metadata to display labels.
//!
//! The decisions are pure and verified here; the host that performs the
//! filesystem probes, registry queries and package installs drives the
//! resolver in `resolve` and carries out the actions it asks for.

pub mod labels;
pub mod manifest;
pub mod options;
pub mod packages;
pub mod paths;
pub mod resolve;
