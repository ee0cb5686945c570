//! Scaffolding logic for a per-user scratch ("playground") Rust project.
//!
//! The crate computes everything the scratch tool decides: expanding the
//! home shorthand in the configured project root, resolving the directory
//! and full path for a requested file name, rendering the build-manifest
//! and tooling-project-description templates, deciding whether to
//! materialize the completion-helper configuration, and building the
//! argument list for the external editor. All file system effects are left
//! to the caller, which hands plain values in and takes plain values back.

mod config;
mod launch;
mod outside;
mod paths;
mod render;
mod scaffold;

pub use config::Config;
pub use config::DEFAULT_CARGO_TOML;
pub use launch::editor_args;
pub use launch::LaunchMode;
pub use launch::EDITOR_CMD_FLAG;
pub use launch::SEED_LINE_1;
pub use launch::SEED_LINE_2;
pub use launch::SEED_LINE_3;
pub use launch::SEED_LINE_4;
pub use launch::SEED_LINE_5;
pub use launch::SEED_LINE_6;
pub use launch::SEED_LINE_7;
pub use launch::SEED_LINE_8;
pub use launch::SEED_LINE_9;
pub use paths::base_name;
pub use paths::dir_part;
pub use paths::expand_home;
pub use paths::join;
pub use render::render_template;
pub use render::PLACEHOLDER;
pub use scaffold::ScaffoldPlan;
