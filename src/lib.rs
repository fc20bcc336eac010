//! Provisioning logic for a tool installer: version gates for detected tools,
//! the persistent search-path store, acquisition strategy selection and the
//! run state machine that ties detection, acquisition and payload install together.

mod text;

pub mod acquisition;
pub mod agent_install;
pub mod detection;
pub mod keys;
pub mod orchestrator;
pub mod path_store;
pub mod version;

pub use keys::clean_registry_value;
pub use orchestrator::{DependencyKind, DependencyStatus, DetectionResults};
pub use version::{is_nodejs_version_sufficient, is_python_version_sufficient};
