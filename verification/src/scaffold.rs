//! Scaffolding: the files each invocation writes into the project
//! directory, and the decision on the optional completion-helper
//! configuration. Everything here computes paths and contents; the
//! caller performs the writes and reports their failures.

use vstd::prelude::*;
use crate::config::Config;
use crate::config::spec_cargo_template;
use crate::outside::char_is_whitespace;
use crate::outside::is_space;
use crate::paths::base_name;
use crate::paths::expand_home;
use crate::paths::join;
use crate::paths::spec_base_name;
use crate::paths::spec_expand_home;
use crate::paths::spec_join;
use crate::paths::spec_resolve_project_dir;
use crate::render::render_template;
use crate::render::spec_render;

verus! {

/// Whether `s` consists of white space alone; an empty text is blank.
pub open spec fn spec_is_blank(s: Seq<char>) -> bool {
    forall|i: int| 0 <= i < s.len() ==> is_space(#[trigger] s[i])
}

/// Whether the settings carry a usable completion-helper source: one
/// that is configured and not blank.
pub open spec fn spec_ycm_enabled(c: &Config) -> bool {
    match c.ycm_extra_conf {
        Some(s) => !spec_is_blank(s@),
        None => false,
    }
}

/// The configured completion-helper source path, or empty when none is
/// configured.
pub open spec fn spec_ycm_source(c: &Config) -> Seq<char> {
    match c.ycm_extra_conf {
        Some(s) => s@,
        None => Seq::empty(),
    }
}

/// Whether scaffolding materializes the completion-helper file: only
/// with a usable source and no file already in place.
pub open spec fn spec_ycm_materializes(c: &Config, dest_exists: bool) -> bool {
    spec_ycm_enabled(c) && !dest_exists
}

/// Whether `s` consists of white space alone.
fn is_blank(s: &str) -> (r: bool)
    ensures
        r == spec_is_blank(s@),
{
    let n = s.unicode_len();
    let mut i: usize = 0;
    while i < n
        invariant
            n == s@.len(),
            i <= n,
            forall|j: int| 0 <= j < i ==> is_space(#[trigger] s@[j]),
        decreases n - i,
    {
        let c = s.get_char(i);
        if !char_is_whitespace(c) {
            return false;
        }
        i += 1;
    }
    true
}

/// The two files scaffolding writes on every invocation: destination
/// paths and fully rendered contents.
pub struct ScaffoldPlan {
    /// Destination of the build-manifest file.
    pub cargo_toml_path: String,
    /// Rendered content of the build-manifest file.
    pub cargo_toml_content: String,
    /// Destination of the tooling-project-description file.
    pub rust_project_json_path: String,
    /// Rendered content of the tooling-project-description file.
    pub rust_project_json_content: String,
}

impl Config {
    /// Renders the build-manifest and tooling-project-description files
    /// for `file_name` and computes where they go. The plan depends on
    /// the settings and the file name alone, never on what is already on
    /// disk: the caller overwrites both destinations with it.
    pub fn scaffold_plan(&self, home: &str, file_name: &str) -> (p: ScaffoldPlan)
        ensures
            p.cargo_toml_path@ == spec_join(
                spec_resolve_project_dir(self.project_dir@, home@, file_name@),
                "Cargo.toml"@,
            ),
            p.cargo_toml_content@ == spec_render(
                spec_cargo_template(self),
                spec_base_name(file_name@),
            ),
            p.rust_project_json_path@ == spec_join(
                spec_resolve_project_dir(self.project_dir@, home@, file_name@),
                "rust-project.json"@,
            ),
            p.rust_project_json_content@ == spec_render(
                self.rust_project_json@,
                spec_base_name(file_name@),
            ),
    {
        let dir = self.resolve_project_dir(home, file_name);
        let base = base_name(file_name);
        let cargo_template = self.get_cargo_toml();
        let cargo_toml_content = render_template(cargo_template.as_str(), base.as_str());
        let rust_project_json_content = render_template(
            self.rust_project_json.as_str(),
            base.as_str(),
        );
        ScaffoldPlan {
            cargo_toml_path: join(dir.as_str(), "Cargo.toml"),
            cargo_toml_content,
            rust_project_json_path: join(dir.as_str(), "rust-project.json"),
            rust_project_json_content,
        }
    }

    /// Decides the completion-helper materialization: with a configured,
    /// non-blank source and no file already at the destination, gives the
    /// expanded source path and the destination path; otherwise nothing,
    /// and an already present file is left as it is.
    pub fn ycm_plan(&self, home: &str, file_name: &str, dest_exists: bool) -> (r: Option<
        (String, String),
    >)
        ensures
            r is Some <==> spec_ycm_materializes(self, dest_exists),
            r matches Some(p) ==> p.0@ == spec_expand_home(spec_ycm_source(self), home@),
            r matches Some(p) ==> p.1@ == spec_join(
                spec_resolve_project_dir(self.project_dir@, home@, file_name@),
                ".ycm_extra_conf.py"@,
            ),
    {
        match &self.ycm_extra_conf {
            None => None,
            Some(src) => {
                if is_blank(src.as_str()) {
                    return None;
                }
                if dest_exists {
                    return None;
                }
                let expanded = expand_home(src.as_str(), home);
                let dir = self.resolve_project_dir(home, file_name);
                Some((expanded, join(dir.as_str(), ".ycm_extra_conf.py")))
            },
        }
    }
}

/// Scaffolding twice is safe for the completion-helper file: once it
/// exists, a further scaffold plans no materialization for it, so the
/// file is never overwritten.
pub proof fn lemma_ycm_idempotent(c: &Config)
    ensures
        !spec_ycm_materializes(c, true),
{
}

} // verus!
