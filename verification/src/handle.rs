//! Handle normalization: one free-text field that names a GitHub or a
//! GitLab account, as a URL or as a bare handle, becomes a canonical
//! `@handle` for the platform it refers to.

use vstd::prelude::*;
use crate::text::{
    chars_of, contains, has_substring, join, lowercase, slice_of, string_of, strip_char_end,
    strip_char_start, strip_leading, strip_leading_char, strip_prefix_repeated,
    strip_trailing_char, to_lowercase, trim, trimmed,
};

verus! {

/// A handle as entered, without the host prefixes in `hosts` (taken off in
/// order, each as often as it stands in front), without leading `@` and
/// trailing `/`.
pub open spec fn bare_handle(text: Seq<char>, hosts: Seq<Seq<char>>) -> Seq<char>
    decreases hosts.len(),
{
    if hosts.len() == 0 {
        strip_trailing_char(strip_leading_char(text, '@'), '/')
    } else {
        bare_handle(strip_leading(text, hosts[0]), hosts.drop_first())
    }
}

/// The host prefixes of GitHub that are taken off a handle.
pub open spec fn github_hosts() -> Seq<Seq<char>> {
    seq!["https://github.com/"@, "http://github.com/"@, "https://www.github.com/"@]
}

/// The host prefix of GitLab that is taken off a handle.
pub open spec fn gitlab_hosts() -> Seq<Seq<char>> {
    seq!["https://gitlab.com/"@]
}

/// The GitHub handle that a trimmed, lowercase text would stand for.
pub open spec fn github_candidate(text: Seq<char>) -> Seq<char> {
    seq!['@'] + bare_handle(text, github_hosts())
}

/// The GitLab handle that a trimmed, lowercase text stands for.
pub open spec fn gitlab_candidate(text: Seq<char>) -> Seq<char> {
    seq!['@'] + bare_handle(text, gitlab_hosts())
}

/// The handles, GitHub first and GitLab second, that a raw field stands
/// for: none for a blank field; the GitLab handle where the GitHub
/// candidate still holds the GitLab host; the GitHub candidate otherwise.
pub open spec fn normalized_handles(raw: Seq<char>) -> (Seq<char>, Seq<char>) {
    let text = lowercase(trimmed(raw));
    if trimmed(raw).len() == 0 {
        (Seq::empty(), Seq::empty())
    } else if has_substring(github_candidate(text), "https://gitlab.com"@) {
        (Seq::empty(), gitlab_candidate(text))
    } else {
        (github_candidate(text), Seq::empty())
    }
}

/// Whether a text is a handle in canonical form: `@` and a name after it.
pub open spec fn is_canonical_handle(handle: Seq<char>) -> bool {
    handle.len() > 0 && handle[0] == '@'
}

/// Of the two handles at most one is set, exactly one unless the field is
/// blank, and a handle that is set starts with `@`.
pub proof fn lemma_handles_exclusive(raw: Seq<char>)
    ensures
        !(normalized_handles(raw).0.len() > 0 && normalized_handles(raw).1.len() > 0),
        trimmed(raw).len() > 0 ==> (normalized_handles(raw).0.len() > 0) != (normalized_handles(
            raw,
        ).1.len() > 0),
        trimmed(raw).len() == 0 ==> normalized_handles(raw).0.len() == 0 && normalized_handles(
            raw,
        ).1.len() == 0,
        normalized_handles(raw).0.len() > 0 ==> is_canonical_handle(normalized_handles(raw).0),
        normalized_handles(raw).1.len() > 0 ==> is_canonical_handle(normalized_handles(raw).1),
{
}

/// The handle part of a trimmed, lowercase text for the given hosts.
fn strip_hosts(text: &Vec<char>, hosts: &Vec<Vec<char>>) -> (r: Vec<char>)
    ensures
        r@ == bare_handle(text@, hosts@.map_values(|h: Vec<char>| h@)),
{
    let ghost all = hosts@.map_values(|h: Vec<char>| h@);
    let mut rest: Vec<char> = slice_of(text, 0, text.len());
    assert(text@.subrange(0, text@.len() as int) =~= text@);
    let mut i: usize = 0;
    assert(all.skip(0) =~= all);
    while i < hosts.len()
        invariant
            i <= hosts.len(),
            all == hosts@.map_values(|h: Vec<char>| h@),
            bare_handle(text@, all) == bare_handle(rest@, all.skip(i as int)),
        decreases hosts.len() - i,
    {
        let ghost tail = all.skip(i as int);
        assert(tail[0] == hosts@[i as int]@);
        assert(tail.drop_first() =~= all.skip(i + 1));
        rest = strip_prefix_repeated(&rest, &hosts[i]);
        i += 1;
    }
    let unmarked = strip_char_start(&rest, '@');
    strip_char_end(&unmarked, '/')
}

/// Normalizes a free-text handle field into a GitHub handle and a GitLab
/// handle, of which at most one is set.
pub fn normalize_handle(raw_value: &str) -> (r: (String, String))
    ensures
        (r.0@, r.1@) == normalized_handles(raw_value@),
        !(r.0@.len() > 0 && r.1@.len() > 0),
        trimmed(raw_value@).len() > 0 ==> (r.0@.len() > 0) != (r.1@.len() > 0),
        r.0@.len() > 0 ==> is_canonical_handle(r.0@),
        r.1@.len() > 0 ==> is_canonical_handle(r.1@),
{
    proof {
        lemma_handles_exclusive(raw_value@);
    }
    let entered = trim(&chars_of(raw_value));
    if entered.len() == 0 {
        return (String::new(), String::new());
    }
    let text = to_lowercase(&entered);
    let mut at: Vec<char> = Vec::new();
    at.push('@');
    assert(at@ =~= seq!['@']);
    let mut hosts: Vec<Vec<char>> = Vec::new();
    hosts.push(chars_of("https://github.com/"));
    hosts.push(chars_of("http://github.com/"));
    hosts.push(chars_of("https://www.github.com/"));
    assert(hosts@.map_values(|h: Vec<char>| h@) =~= github_hosts());
    let github = join(&at, &strip_hosts(&text, &hosts));
    if contains(&github, &chars_of("https://gitlab.com")) {
        let mut lab: Vec<Vec<char>> = Vec::new();
        lab.push(chars_of("https://gitlab.com/"));
        assert(lab@.map_values(|h: Vec<char>| h@) =~= gitlab_hosts());
        let gitlab = join(&at, &strip_hosts(&text, &lab));
        (String::new(), string_of(&gitlab))
    } else {
        (string_of(&github), String::new())
    }
}

} // verus!
