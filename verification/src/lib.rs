//! A versioned task registry: for each named task an append-only history of
//! content hashes, which only the registry's owner may extend.
//!
//! `Registry` is the executable registry. `model` describes it as a state
//! machine over maps, and `laws` proves what holds of that machine.

pub mod error;
pub mod identity;
pub mod laws;
pub mod model;
pub mod registry;
pub mod task;
pub mod version;

pub use error::RegistryError;
pub use identity::Identity;
pub use registry::Registry;
pub use task::Task;
pub use version::VersionInfo;
