//! The two points where the library leans on code it does not verify:
//! the home-directory lookup and the Unicode white-space classification.

use vstd::prelude::*;

verus! {

/// Whether a character counts as white space, as the Unicode
/// `White_Space` property defines it. The classification is a fixed
/// function of the character alone; nothing here states the table.
pub uninterp spec fn is_space(c: char) -> bool;

/// Relies on char::is_whitespace: true exactly when the character has
/// the Unicode `White_Space` property, a pure function of `c`.
#[verifier::external_body]
pub(crate) fn char_is_whitespace(c: char) -> (r: bool)
    ensures
        r == is_space(c),
{
    c.is_whitespace()
}

/// Relies on dirs::home_dir: the user's home directory as the platform
/// reports it, or `None` when it reports none. The answer depends on
/// the environment, so nothing is promised of it.
#[verifier::external_body]
pub(crate) fn home_dir() -> Option<String> {
    dirs::home_dir().map(|p| p.to_string_lossy().to_string())
}

} // verus!
