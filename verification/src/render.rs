//! Template rendering: every occurrence of the placeholder token is
//! replaced by the requested file's base name. Matches are found left to
//! right and do not overlap; replaced text is not scanned again.

use vstd::prelude::*;

verus! {

/// The placeholder token that templates may carry.
pub const PLACEHOLDER: &'static str = "{#file_name}";

/// The placeholder token as a character sequence; it is twelve
/// characters long.
pub open spec fn placeholder() -> Seq<char> {
    PLACEHOLDER@
}

pub proof fn lemma_placeholder_len()
    ensures
        placeholder().len() == 12,
{
    reveal_strlit("{#file_name}");
}

/// `t` with every occurrence of the placeholder replaced by `name`,
/// scanning left to right without rescanning replaced text.
pub open spec fn spec_render(t: Seq<char>, name: Seq<char>) -> Seq<char>
    decreases t.len(),
{
    if t.len() < 12 {
        t
    } else if t.subrange(0, 12) == placeholder() {
        name + spec_render(t.skip(12), name)
    } else {
        seq![t[0]] + spec_render(t.skip(1), name)
    }
}

/// Whether the placeholder occurs anywhere in `s`.
pub open spec fn spec_contains_placeholder(s: Seq<char>) -> bool {
    exists|i: int| 0 <= i && i + 12 <= s.len() && #[trigger] s.subrange(i, i + 12) == placeholder()
}

/// Whether the placeholder starts at character position `i` of `t`.
fn matches_at(t: &str, i: usize, n: usize) -> (r: bool)
    requires
        i < n,
        n == t@.len(),
    ensures
        r == (i + 12 <= t@.len() && t@.subrange(i as int, i as int + 12) == placeholder()),
{
    proof {
        lemma_placeholder_len();
    }
    if n - i < 12 {
        return false;
    }
    let mut k: usize = 0;
    while k < 12
        invariant
            i + 12 <= n,
            n == t@.len(),
            k <= 12,
            placeholder().len() == 12,
            forall|j: int| 0 <= j < k ==> t@[i + j] == placeholder()[j],
        decreases 12 - k,
    {
        let tc = t.get_char(i + k);
        let pc = PLACEHOLDER.get_char(k);
        if tc != pc {
            proof {
                let sub = t@.subrange(i as int, i as int + 12);
                assert(sub[k as int] == t@[i + k]);
                assert(sub != placeholder());
            }
            return false;
        }
        k += 1;
    }
    proof {
        assert(t@.subrange(i as int, i as int + 12) =~= placeholder());
    }
    true
}

/// Renders `template`: every occurrence of the placeholder becomes
/// `file_name`.
pub fn render_template(template: &str, file_name: &str) -> (r: String)
    ensures
        r@ == spec_render(template@, file_name@),
{
    proof {
        lemma_placeholder_len();
    }
    let n = template.unicode_len();
    let mut out = String::new();
    let mut i: usize = 0;
    proof {
        assert(template@.skip(0) =~= template@);
        assert(Seq::<char>::empty() + spec_render(template@, file_name@) =~= spec_render(
            template@,
            file_name@,
        ));
    }
    while i < n
        invariant
            n == template@.len(),
            i <= n,
            out@ + spec_render(template@.skip(i as int), file_name@) == spec_render(
                template@,
                file_name@,
            ),
        decreases n - i,
    {
        let ghost pre = out@;
        let ghost rest = template@.skip(i as int);
        proof {
            assert(rest[0] == template@[i as int]);
            assert(rest.skip(1) =~= template@.skip(i as int + 1));
        }
        if matches_at(template, i, n) {
            out.append(file_name);
            proof {
                lemma_placeholder_len();
                assert(rest.subrange(0, 12) =~= template@.subrange(i as int, i as int + 12));
                assert(rest.skip(12) =~= template@.skip(i as int + 12));
                assert(spec_render(rest, file_name@) == file_name@ + spec_render(
                    rest.skip(12),
                    file_name@,
                ));
                assert(out@ + spec_render(template@.skip(i as int + 12), file_name@) =~= pre
                    + spec_render(rest, file_name@));
            }
            i += 12;
        } else {
            let piece = template.substring_char(i, i + 1);
            out.append(piece);
            proof {
                assert(piece@ =~= seq![rest[0]]);
                if rest.len() < 12 {
                    assert(spec_render(rest, file_name@) == rest);
                    assert(spec_render(rest.skip(1), file_name@) == rest.skip(1));
                    assert(rest =~= seq![rest[0]] + rest.skip(1));
                } else {
                    assert(rest.subrange(0, 12) =~= template@.subrange(i as int, i as int + 12));
                    assert(spec_render(rest, file_name@) == seq![rest[0]] + spec_render(
                        rest.skip(1),
                        file_name@,
                    ));
                }
                assert(out@ + spec_render(template@.skip(i as int + 1), file_name@) =~= pre
                    + spec_render(rest, file_name@));
            }
            i += 1;
        }
    }
    proof {
        assert(template@.skip(n as int) =~= Seq::<char>::empty());
        assert(out@ + spec_render(Seq::<char>::empty(), file_name@) =~= out@);
    }
    out
}

/// Rendering is a pure function of the template and the file name: two
/// renderings of the same pair are identical.
pub proof fn lemma_render_deterministic(
    t: Seq<char>,
    name: Seq<char>,
    r1: Seq<char>,
    r2: Seq<char>,
)
    requires
        r1 == spec_render(t, name),
        r2 == spec_render(t, name),
    ensures
        r1 == r2,
{
}

/// A text without the placeholder renders to itself.
pub proof fn lemma_render_no_placeholder(s: Seq<char>, name: Seq<char>)
    requires
        !spec_contains_placeholder(s),
    ensures
        spec_render(s, name) == s,
    decreases s.len(),
{
    lemma_placeholder_len();
    if s.len() < 12 {
    } else {
        assert(s.subrange(0, 12) != placeholder()) by {
            if s.subrange(0, 12) == placeholder() {
                let z: int = 0;
                assert(0 <= z && z + 12 <= s.len() && s.subrange(z, z + 12) == placeholder());
            }
        }
        assert(!spec_contains_placeholder(s.skip(1))) by {
            if spec_contains_placeholder(s.skip(1)) {
                let i = choose|i: int|
                    0 <= i && i + 12 <= s.skip(1).len() && #[trigger] s.skip(1).subrange(i, i + 12)
                        == placeholder();
                assert(s.subrange(i + 1, i + 13) =~= s.skip(1).subrange(i, i + 12));
                assert(0 <= i + 1 && i + 1 + 12 <= s.len() && s.subrange(i + 1, i + 1 + 12)
                    == placeholder());
            }
        }
        lemma_render_no_placeholder(s.skip(1), name);
        assert(spec_render(s, name) =~= s);
    }
}

/// Rendering is idempotent: when the rendered text holds no further
/// occurrence of the placeholder, rendering it again leaves it as it is.
pub proof fn lemma_render_idempotent(t: Seq<char>, name: Seq<char>)
    requires
        !spec_contains_placeholder(spec_render(t, name)),
    ensures
        spec_render(spec_render(t, name), name) == spec_render(t, name),
{
    lemma_render_no_placeholder(spec_render(t, name), name);
}

} // verus!
