//! Pure text transformations: pattern removal, host extraction from a URL,
//! and stripping of markup tags for display.

use vstd::prelude::*;

verus! {

/// What remains of `s` from position `i` on after every occurrence of `pat`
/// has been removed, scanning left to right and never overlapping matches.
pub open spec fn remove_all_from(s: Seq<char>, pat: Seq<char>, i: int) -> Seq<char>
    decreases s.len() - i,
    when 0 <= i && pat.len() >= 1
{
    if i >= s.len() {
        Seq::<char>::empty()
    } else if i + pat.len() <= s.len() && s.subrange(i, i + pat.len() as int) == pat {
        remove_all_from(s, pat, i + pat.len() as int)
    } else {
        seq![s[i]] + remove_all_from(s, pat, i + 1)
    }
}

/// `s` with every occurrence of `pat` removed, scanning left to right.
pub open spec fn remove_all(s: Seq<char>, pat: Seq<char>) -> Seq<char> {
    remove_all_from(s, pat, 0)
}

/// The prefix of `s` from position `i` up to the first `'/'`, if any.
pub open spec fn before_slash_from(s: Seq<char>, i: int) -> Seq<char>
    decreases s.len() - i,
    when 0 <= i
{
    if i >= s.len() {
        Seq::<char>::empty()
    } else if s[i] == '/' {
        Seq::<char>::empty()
    } else {
        seq![s[i]] + before_slash_from(s, i + 1)
    }
}

/// The prefix of `s` up to the first `'/'`, or all of `s` if none occurs.
pub open spec fn before_slash(s: Seq<char>) -> Seq<char> {
    before_slash_from(s, 0)
}

/// `s` from position `i` on with every maximal `'<'`..`'>'` tag span removed;
/// `in_tag` says whether position `i` is already inside a tag.
pub open spec fn strip_tags_from(s: Seq<char>, i: int, in_tag: bool) -> Seq<char>
    decreases s.len() - i,
    when 0 <= i
{
    if i >= s.len() {
        Seq::<char>::empty()
    } else if s[i] == '<' {
        strip_tags_from(s, i + 1, true)
    } else if s[i] == '>' {
        strip_tags_from(s, i + 1, false)
    } else if in_tag {
        strip_tags_from(s, i + 1, in_tag)
    } else {
        seq![s[i]] + strip_tags_from(s, i + 1, in_tag)
    }
}

/// `s` with every `'<'`..`'>'` tag span removed.
pub open spec fn strip_tags(s: Seq<char>) -> Seq<char> {
    strip_tags_from(s, 0, false)
}

/// Whether `pat` occurs in `s` starting at position `i`.
fn matches_at(s: &str, i: usize, pat: &str) -> (r: bool)
    requires
        i <= s@.len(),
    ensures
        r == (i + pat@.len() <= s@.len() && s@.subrange(i as int, i + pat@.len() as int) == pat@),
{
    let n = s.unicode_len();
    let p = pat.unicode_len();
    if p > n - i {
        return false;
    }
    let mut j: usize = 0;
    while j < p
        invariant
            j <= p,
            i + p <= n,
            n == s@.len(),
            p == pat@.len(),
            forall|k: int| 0 <= k < j ==> s@[i + k] == pat@[k],
        decreases p - j,
    {
        if s.get_char(i + j) != pat.get_char(j) {
            assert(s@.subrange(i as int, i + pat@.len() as int) != pat@) by {
                assert(s@.subrange(i as int, i + pat@.len() as int)[j as int] != pat@[j as int]);
            }
            return false;
        }
        j = j + 1;
    }
    proof {
        assert(s@.subrange(i as int, i + pat@.len() as int) =~= pat@);
    }
    true
}

/// `s` with every occurrence of `pat` removed, scanning left to right
/// without overlap, as `remove_all` states.
pub fn remove_all_exec(s: &str, pat: &str) -> (r: String)
    requires
        pat@.len() >= 1,
    ensures
        r@ == remove_all(s@, pat@),
{
    let n = s.unicode_len();
    let p = pat.unicode_len();
    let mut r = String::new();
    let mut i: usize = 0;
    while i < n
        invariant
            i <= n,
            n == s@.len(),
            p == pat@.len(),
            p >= 1,
            r@ + remove_all_from(s@, pat@, i as int) == remove_all(s@, pat@),
        decreases n - i,
    {
        if matches_at(s, i, pat) {
            i = i + p;
        } else {
            let piece = s.substring_char(i, i + 1);
            r.append(piece);
            proof {
                assert(piece@ =~= seq![s@[i as int]]);
                assert((r@ + remove_all_from(s@, pat@, i + 1)) =~= remove_all(s@, pat@));
            }
            i = i + 1;
        }
    }
    proof {
        assert(r@ =~= r@ + remove_all_from(s@, pat@, i as int));
    }
    r
}

/// The prefix of `s` up to its first `'/'`, as `before_slash` states.
pub fn before_slash_exec(s: &str) -> (r: String)
    ensures
        r@ == before_slash(s@),
{
    let n = s.unicode_len();
    let mut r = String::new();
    let mut i: usize = 0;
    while i < n
        invariant
            i <= n,
            n == s@.len(),
            r@ + before_slash_from(s@, i as int) == before_slash(s@),
        decreases n - i,
    {
        let c = s.get_char(i);
        if c == '/' {
            proof {
                assert(r@ =~= r@ + before_slash_from(s@, i as int));
            }
            return r;
        }
        let piece = s.substring_char(i, i + 1);
        r.append(piece);
        proof {
            assert(piece@ =~= seq![s@[i as int]]);
            assert((r@ + before_slash_from(s@, i + 1)) =~= before_slash(s@));
        }
        i = i + 1;
    }
    proof {
        assert(r@ =~= r@ + before_slash_from(s@, i as int));
    }
    r
}

/// Removes every `'<'`..`'>'` tag span from `input`, keeping all other
/// characters in order, as `strip_tags` states.
pub fn strip_html_tags(input: &str) -> (r: String)
    ensures
        r@ == strip_tags(input@),
{
    let n = input.unicode_len();
    let mut result = String::new();
    let mut in_tag = false;
    let mut i: usize = 0;
    while i < n
        invariant
            i <= n,
            n == input@.len(),
            result@ + strip_tags_from(input@, i as int, in_tag) == strip_tags(input@),
        decreases n - i,
    {
        let c = input.get_char(i);
        if c == '<' {
            in_tag = true;
        } else if c == '>' {
            in_tag = false;
        } else if !in_tag {
            let piece = input.substring_char(i, i + 1);
            result.append(piece);
            proof {
                assert(piece@ =~= seq![input@[i as int]]);
                assert((result@ + strip_tags_from(input@, i + 1, in_tag)) =~= strip_tags(
                    input@,
                ));
            }
        }
        i = i + 1;
    }
    proof {
        assert(result@ =~= result@ + strip_tags_from(input@, i as int, in_tag));
    }
    result
}

} // verus!
