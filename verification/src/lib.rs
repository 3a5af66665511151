//! A launcher for development containers: it reads a descriptor, decides how
//! the container it describes is brought up and taken down, and says which
//! requests go to the container runtime, in which order.

pub mod container;
pub mod devcontainer;
pub mod errors;
pub mod guarantees;
pub mod lifecycle;
pub mod mount_from_str;
pub mod paths;
pub mod project;
pub mod provision;
pub mod settings;
pub mod settings_compose_model;
pub mod string_map;
pub mod text;
