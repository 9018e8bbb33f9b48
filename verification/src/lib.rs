//! Decision logic of a proto plugin that installs the AWS CLI.

pub mod paths;
pub mod text;
pub mod platform;
pub mod download;
pub mod executables;
pub mod install;
pub mod versions;
pub mod version_specs;
