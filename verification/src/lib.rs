//! A host-capability bridge for an embedded scripting engine.
//!
//! The library defines the marshaled value model that crosses the
//! host/script boundary, the capability objects (debug logging, files,
//! clipboard) exposed to scripts, and the registrar that assembles them
//! into a single named object tree. The scripting engine itself is an
//! external collaborator: the host process owns its lifecycle and hands
//! this library plain values.

pub mod clipboard;
pub mod dispatch;
pub mod error;
pub mod file;
pub mod marshal;
pub mod registry;
pub mod render;
pub mod value;

pub use value::Value;

