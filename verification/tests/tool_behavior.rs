use rvi::Config;
use rvi::LaunchMode;

fn settings(
    project_dir: &str,
    rust_project_json: &str,
    cargo_toml: Option<&str>,
    editor: Option<&str>,
    ycm_extra_conf: Option<&str>,
) -> Config {
    Config::new(
        project_dir.to_string(),
        rust_project_json.to_string(),
        cargo_toml.map(|s| s.to_string()),
        editor.map(|s| s.to_string()),
        ycm_extra_conf.map(|s| s.to_string()),
    )
}

#[test]
fn render_replaces_placeholder() {
    let r = rvi::render_template("path='./{#file_name}'", "demo.rs");
    assert_eq!(r, "path='./demo.rs'");
}

#[test]
fn render_replaces_every_occurrence() {
    let r = rvi::render_template("{#file_name} and {#file_name}", "a.rs");
    assert_eq!(r, "a.rs and a.rs");
}

#[test]
fn render_without_placeholder_is_identity() {
    let r = rvi::render_template("no token here", "a.rs");
    assert_eq!(r, "no token here");
}

#[test]
fn render_empty_template() {
    let r = rvi::render_template("", "a.rs");
    assert_eq!(r, "");
}

#[test]
fn render_is_pure_and_idempotent() {
    let first = rvi::render_template("lib = '{#file_name}'", "demo.rs");
    let second = rvi::render_template("lib = '{#file_name}'", "demo.rs");
    assert_eq!(first, second);
    let again = rvi::render_template(&first, "demo.rs");
    assert_eq!(again, first);
}

#[test]
fn expand_home_replaces_shorthand() {
    assert_eq!(rvi::expand_home("~/play", "/home/u"), "/home/u/play");
}

#[test]
fn expand_home_replaces_every_tilde() {
    assert_eq!(rvi::expand_home("~/a~", "/h"), "/h/a/h");
}

#[test]
fn expand_home_leaves_plain_paths() {
    assert_eq!(rvi::expand_home("/var/tmp", "/home/u"), "/var/tmp");
}

#[test]
fn join_inserts_separator() {
    assert_eq!(rvi::join("/a", "b.rs"), "/a/b.rs");
}

#[test]
fn join_keeps_trailing_separator() {
    assert_eq!(rvi::join("/a/", "b.rs"), "/a/b.rs");
}

#[test]
fn join_with_empty_directory() {
    assert_eq!(rvi::join("", "b.rs"), "b.rs");
}

#[test]
fn base_name_takes_last_component() {
    assert_eq!(rvi::base_name("sub/dir/f.rs"), "f.rs");
    assert_eq!(rvi::base_name("f.rs"), "f.rs");
}

#[test]
fn dir_part_takes_leading_components() {
    assert_eq!(rvi::dir_part("sub/dir/f.rs"), "sub/dir");
    assert_eq!(rvi::dir_part("f.rs"), "");
}

#[test]
fn plain_name_resolves_to_expanded_root() {
    let cfg = settings("~/play", "{}", None, None, None);
    assert_eq!(cfg.resolve_project_dir("/home/u", "demo.rs"), "/home/u/play");
    assert_eq!(cfg.resolve_full_path("/home/u", "demo.rs"), "/home/u/play/demo.rs");
}

#[test]
fn nested_name_resolves_to_sub_directory() {
    let cfg = settings("~/play", "{}", None, None, None);
    assert_eq!(cfg.resolve_project_dir("/home/u", "sub/dir/file.rs"), "/home/u/play/sub/dir");
    assert_eq!(cfg.resolve_full_path("/home/u", "sub/dir/file.rs"), "/home/u/play/sub/dir/file.rs");
}

#[test]
fn editor_defaults_to_vim() {
    let cfg = settings("~/play", "{}", None, None, None);
    assert_eq!(cfg.get_editor(), "vim");
}

#[test]
fn editor_override_wins() {
    let cfg = settings("~/play", "{}", None, Some("emacs"), None);
    assert_eq!(cfg.get_editor(), "emacs");
}

#[test]
fn cargo_template_defaults() {
    let cfg = settings("~/play", "{}", None, None, None);
    assert_eq!(cfg.get_cargo_toml(), rvi::DEFAULT_CARGO_TOML);
}

#[test]
fn cargo_template_override_wins() {
    let cfg = settings("~/play", "{}", Some("[package]"), None, None);
    assert_eq!(cfg.get_cargo_toml(), "[package]");
}

#[test]
fn rust_project_json_is_kept() {
    let cfg = settings("~/play", "{\"roots\": []}", None, None, None);
    assert_eq!(cfg.get_rust_project_json(), "{\"roots\": []}");
}

#[test]
fn scaffold_plan_for_plain_name() {
    let cfg = settings("~/play", "{\"main\": \"{#file_name}\"}", None, None, None);
    let plan = cfg.scaffold_plan("/home/u", "demo.rs");
    assert_eq!(plan.cargo_toml_path, "/home/u/play/Cargo.toml");
    assert_eq!(plan.rust_project_json_path, "/home/u/play/rust-project.json");
    assert_eq!(
        plan.cargo_toml_content,
        "\n[package]\nname = \"test\"\nversion = \"0.1.0\"\nedition = \"2021\"\ndescription = \"Just a test\"\n\n[lib]\npath='./demo.rs'\n\n[dependencies]"
    );
    assert_eq!(plan.rust_project_json_content, "{\"main\": \"demo.rs\"}");
}

#[test]
fn scaffold_plan_for_nested_name() {
    let cfg = settings("~/play", "{\"main\": \"{#file_name}\"}", None, None, None);
    let plan = cfg.scaffold_plan("/home/u", "sub/dir/file.rs");
    assert_eq!(plan.cargo_toml_path, "/home/u/play/sub/dir/Cargo.toml");
    assert_eq!(plan.rust_project_json_path, "/home/u/play/sub/dir/rust-project.json");
    assert_eq!(plan.rust_project_json_content, "{\"main\": \"file.rs\"}");
}

#[test]
fn scaffold_plan_ignores_what_is_on_disk() {
    let cfg = settings("~/play", "x {#file_name} x", Some("y {#file_name} y"), None, None);
    let first = cfg.scaffold_plan("/home/u", "demo.rs");
    let second = cfg.scaffold_plan("/home/u", "demo.rs");
    assert_eq!(first.cargo_toml_content, second.cargo_toml_content);
    assert_eq!(first.cargo_toml_content, "y demo.rs y");
    assert_eq!(first.rust_project_json_content, "x demo.rs x");
}

#[test]
fn helper_skipped_without_source() {
    let cfg = settings("~/play", "{}", None, None, None);
    assert!(cfg.ycm_plan("/home/u", "demo.rs", false).is_none());
}

#[test]
fn helper_skipped_for_blank_source() {
    let cfg = settings("~/play", "{}", None, None, Some(" \t "));
    assert!(cfg.ycm_plan("/home/u", "demo.rs", false).is_none());
}

#[test]
fn helper_skipped_when_already_present() {
    let cfg = settings("~/play", "{}", None, None, Some("~/conf.py"));
    assert!(cfg.ycm_plan("/home/u", "demo.rs", true).is_none());
}

#[test]
fn helper_materialized_when_absent() {
    let cfg = settings("~/play", "{}", None, None, Some("~/conf.py"));
    let (source, dest) = cfg.ycm_plan("/home/u", "demo.rs", false).unwrap();
    assert_eq!(source, "/home/u/conf.py");
    assert_eq!(dest, "/home/u/play/.ycm_extra_conf.py");
}

#[test]
fn existing_file_opens_plainly() {
    let args = rvi::editor_args("/home/u/play/demo.rs", LaunchMode::Existing);
    assert_eq!(args, vec!["/home/u/play/demo.rs".to_string()]);
}

#[test]
fn fresh_file_seeds_nine_lines() {
    let args = rvi::editor_args("/home/u/play/demo.rs", LaunchMode::Fresh);
    assert_eq!(args.len(), 19);
    assert_eq!(args[0], "/home/u/play/demo.rs");
    for k in 0..9 {
        assert_eq!(args[1 + 2 * k], "-c");
    }
    assert_eq!(
        args[2],
        r#"call setline(1, "// Created Time: ".strftime("%Y-%m-%d %H:%M:%S"))"#
    );
    assert_eq!(args[4], "call setline(2, '')");
    assert_eq!(args[6], "call setline(3, 'fn main(){')");
    assert_eq!(args[8], "call setline(4, '')");
    assert_eq!(args[10], "call setline(5, '')");
    assert_eq!(args[12], "call setline(6, '}')");
    assert_eq!(args[14], "call setline(7, '')");
    assert_eq!(args[16], "call setline(8, '#[cfg(test)]')");
    assert_eq!(args[18], "call setline(9, 'mod test{}')");
}

#[test]
fn full_file_path_under_reported_home() {
    let cfg = settings("/tmp/rvi_play", "{}", None, None, None);
    match cfg.get_full_file_path("x.rs") {
        Some(p) => assert_eq!(p, "/tmp/rvi_play/x.rs"),
        None => panic!("platform reported no home directory"),
    }
}
