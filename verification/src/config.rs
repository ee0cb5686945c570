//! The settings object: one immutable value loaded once per invocation.

use vstd::prelude::*;

verus! {

/// Content written as the build manifest when the settings give no override.
/// The `{#file_name}` token is replaced with the requested file's base name.
pub const DEFAULT_CARGO_TOML: &'static str = r#"
[package]
name = "test"
version = "0.1.0"
edition = "2021"
description = "Just a test"

[lib]
path='./{#file_name}'

[dependencies]"#;

/// Per-user settings, parsed from the settings file by the caller and
/// passed by value into every operation; no ambient state.
#[derive(Debug, Clone)]
pub struct Config {
    /// Home-relative directory where scratch files live; `~` stands for
    /// the user's home directory.
    pub project_dir: String,
    /// Full content template for the tooling-project-description file.
    pub rust_project_json: String,
    /// Content template for the build-manifest file; when absent a
    /// built-in default is used.
    pub cargo_toml: Option<String>,
    /// Executable name of the editor to launch; defaults to `vim`.
    pub editor: Option<String>,
    /// Path of the completion-helper configuration to copy into a fresh
    /// project directory, home-relative; absent or blank disables it.
    pub ycm_extra_conf: Option<String>,
}

/// The editor the settings select: the configured one, or `vim`.
pub open spec fn spec_editor(c: &Config) -> Seq<char> {
    match c.editor {
        Some(e) => e@,
        None => "vim"@,
    }
}

/// The build-manifest template the settings select: the configured one,
/// or the built-in default.
pub open spec fn spec_cargo_template(c: &Config) -> Seq<char> {
    match c.cargo_toml {
        Some(t) => t@,
        None => DEFAULT_CARGO_TOML@,
    }
}

impl Config {
    /// Builds a settings value from its five fields.
    pub fn new(
        project_dir: String,
        rust_project_json: String,
        cargo_toml: Option<String>,
        editor: Option<String>,
        ycm_extra_conf: Option<String>,
    ) -> (c: Config)
        ensures
            c.project_dir == project_dir,
            c.rust_project_json == rust_project_json,
            c.cargo_toml == cargo_toml,
            c.editor == editor,
            c.ycm_extra_conf == ycm_extra_conf,
    {
        Config { project_dir, rust_project_json, cargo_toml, editor, ycm_extra_conf }
    }

    /// The content template for the tooling-project-description file.
    pub fn get_rust_project_json(&self) -> (r: String)
        ensures
            r@ == self.rust_project_json@,
    {
        self.rust_project_json.clone()
    }

    /// The content template for the build-manifest file: the configured
    /// override, or the built-in default.
    pub fn get_cargo_toml(&self) -> (r: String)
        ensures
            r@ == spec_cargo_template(self),
    {
        match &self.cargo_toml {
            Some(e) => e.clone(),
            None => DEFAULT_CARGO_TOML.to_owned(),
        }
    }

    /// The editor to launch: the configured one, or `vim`.
    pub fn get_editor(&self) -> (r: String)
        ensures
            r@ == spec_editor(self),
    {
        match &self.editor {
            Some(e) => e.clone(),
            None => "vim".to_owned(),
        }
    }
}

} // verus!
