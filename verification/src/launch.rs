//! Editor launching: the argument list handed to the external editor.
//! An existing file is opened as it is; a fresh one is opened together
//! with a fixed sequence of line-insertion commands that seed a module
//! skeleton (a timestamp comment, a function stub and a test-module
//! stub) into buffer lines one through nine. The timestamp itself is
//! evaluated by the editor when it runs the command.

use vstd::prelude::*;

verus! {

/// The editor flag that introduces one command to run after opening.
pub const EDITOR_CMD_FLAG: &'static str = "-c";

/// Inserts the timestamp comment on the first buffer line.
pub const SEED_LINE_1: &'static str =
    r#"call setline(1, "// Created Time: ".strftime("%Y-%m-%d %H:%M:%S"))"#;

/// Inserts the blank second buffer line.
pub const SEED_LINE_2: &'static str = "call setline(2, '')";

/// Inserts the opening function-definition line.
pub const SEED_LINE_3: &'static str = "call setline(3, 'fn main(){')";

/// Inserts the blank fourth buffer line.
pub const SEED_LINE_4: &'static str = "call setline(4, '')";

/// Inserts the blank fifth buffer line.
pub const SEED_LINE_5: &'static str = "call setline(5, '')";

/// Inserts the closing brace line.
pub const SEED_LINE_6: &'static str = "call setline(6, '}')";

/// Inserts the blank seventh buffer line.
pub const SEED_LINE_7: &'static str = "call setline(7, '')";

/// Inserts the test-module attribute line.
pub const SEED_LINE_8: &'static str = "call setline(8, '#[cfg(test)]')";

/// Inserts the empty test-module declaration line.
pub const SEED_LINE_9: &'static str = "call setline(9, 'mod test{}')";

/// The two ways the editor is started on the target file.
#[derive(Clone, Copy, PartialEq, Eq, Structural, Debug)]
pub enum LaunchMode {
    /// The file already exists: open it as it is.
    Existing,
    /// The file does not exist yet: seed the boilerplate skeleton into
    /// the fresh buffer.
    Fresh,
}

/// The arguments the editor is started with: the target path alone for
/// an existing file, or the path followed by the nine seeding commands,
/// each behind the command flag, for a fresh one.
pub open spec fn spec_editor_args(full_path: Seq<char>, mode: LaunchMode) -> Seq<Seq<char>> {
    match mode {
        LaunchMode::Existing => seq![full_path],
        LaunchMode::Fresh => seq![
            full_path,
            EDITOR_CMD_FLAG@,
            SEED_LINE_1@,
            EDITOR_CMD_FLAG@,
            SEED_LINE_2@,
            EDITOR_CMD_FLAG@,
            SEED_LINE_3@,
            EDITOR_CMD_FLAG@,
            SEED_LINE_4@,
            EDITOR_CMD_FLAG@,
            SEED_LINE_5@,
            EDITOR_CMD_FLAG@,
            SEED_LINE_6@,
            EDITOR_CMD_FLAG@,
            SEED_LINE_7@,
            EDITOR_CMD_FLAG@,
            SEED_LINE_8@,
            EDITOR_CMD_FLAG@,
            SEED_LINE_9@,
        ],
    }
}

/// Builds the editor's argument list for the target file.
pub fn editor_args(full_path: &str, mode: LaunchMode) -> (r: Vec<String>)
    ensures
        r.deep_view() == spec_editor_args(full_path@, mode),
{
    let mut r: Vec<String> = Vec::new();
    r.push(full_path.to_owned());
    match mode {
        LaunchMode::Existing => {},
        LaunchMode::Fresh => {
            r.push(EDITOR_CMD_FLAG.to_owned());
            r.push(SEED_LINE_1.to_owned());
            r.push(EDITOR_CMD_FLAG.to_owned());
            r.push(SEED_LINE_2.to_owned());
            r.push(EDITOR_CMD_FLAG.to_owned());
            r.push(SEED_LINE_3.to_owned());
            r.push(EDITOR_CMD_FLAG.to_owned());
            r.push(SEED_LINE_4.to_owned());
            r.push(EDITOR_CMD_FLAG.to_owned());
            r.push(SEED_LINE_5.to_owned());
            r.push(EDITOR_CMD_FLAG.to_owned());
            r.push(SEED_LINE_6.to_owned());
            r.push(EDITOR_CMD_FLAG.to_owned());
            r.push(SEED_LINE_7.to_owned());
            r.push(EDITOR_CMD_FLAG.to_owned());
            r.push(SEED_LINE_8.to_owned());
            r.push(EDITOR_CMD_FLAG.to_owned());
            r.push(SEED_LINE_9.to_owned());
        },
    }
    proof {
        assert(r.deep_view() =~= spec_editor_args(full_path@, mode));
    }
    r
}

} // verus!
