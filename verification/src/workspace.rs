//! Where a revision of a repository is checked out.
//!
//! Each pair of repository URL and revision has one workspace directory; its
//! name is made of the URL, with what a file name cannot hold replaced, and
//! the revision. The same pair always gives the same name.

use vstd::prelude::*;
use crate::text::chars_of;

verus! {

/// Whether `s` holds `://` at `i`.
pub open spec fn scheme_separator_at(s: Seq<char>, i: int) -> bool {
    0 <= i && i + 3 <= s.len() && s[i] == ':' && s[i + 1] == '/' && s[i + 2] == '/'
}

/// What stands for a character in a directory name: `_` for each of `/`,
/// `?`, `&` and `:`, the character itself otherwise.
pub open spec fn sanitized_char(c: char) -> char {
    if c == '/' || c == '?' || c == '&' || c == ':' {
        '_'
    } else {
        c
    }
}

/// The text from `from` on, read from the left, with `_` for each `://` and
/// for each `/`, `?`, `&` and `:` that is left.
pub open spec fn sanitized_from(s: Seq<char>, from: int) -> Seq<char>
    decreases s.len() - from,
{
    if from < 0 || from >= s.len() {
        Seq::empty()
    } else if scheme_separator_at(s, from) {
        seq!['_'] + sanitized_from(s, from + 3)
    } else {
        seq![sanitized_char(s[from])] + sanitized_from(s, from + 1)
    }
}

/// The text from `from` on, read from the left, with `_` for each `://` and
/// everything else as it stands.
pub open spec fn separators_replaced_from(s: Seq<char>, from: int) -> Seq<char>
    decreases s.len() - from,
{
    if from < 0 || from >= s.len() {
        Seq::empty()
    } else if scheme_separator_at(s, from) {
        seq!['_'] + separators_replaced_from(s, from + 3)
    } else {
        seq![s[from]] + separators_replaced_from(s, from + 1)
    }
}

/// A repository URL made fit for a directory name.
pub open spec fn sanitized(url: Seq<char>) -> Seq<char> {
    sanitized_from(url, 0)
}

/// The name of the workspace directory of a revision of a repository.
pub open spec fn workspace_name(url: Seq<char>, revision: Seq<char>) -> Seq<char> {
    sanitized(url) + seq!['@'] + revision
}

/// A repository URL made fit for a directory name: `_` stands for each `://`
/// and for each `/`, `?`, `&` and `:` elsewhere.
pub fn sanitize(url: &str) -> (r: String)
    ensures
        r@ == sanitized(url@),
{
    let chars = chars_of(url);
    let n: usize = chars.len();
    let mut out = String::new();
    let mut i: usize = 0;
    while i < n
        invariant
            i <= n == chars@.len(),
            out@ + sanitized_from(chars@, i as int) == sanitized(chars@),
        decreases n - i,
    {
        let ghost before = out@;
        if n - i >= 3 && chars[i] == ':' && chars[i + 1] == '/' && chars[i + 2] == '/' {
            out.push('_');
            assert(out@ + sanitized_from(chars@, i + 3) =~= before + sanitized_from(
                chars@,
                i as int,
            ));
            i += 3;
        } else {
            let c = chars[i];
            if c == '/' || c == '?' || c == '&' || c == ':' {
                out.push('_');
            } else {
                out.push(c);
            }
            assert(out@ + sanitized_from(chars@, i + 1) =~= before + sanitized_from(
                chars@,
                i as int,
            ));
            i += 1;
        }
    }
    assert(out@ + sanitized_from(chars@, n as int) =~= out@);
    out
}

/// The name of the workspace directory of a revision of a repository.
pub fn workspace_dir_name(repo_url: &str, revision: &str) -> (r: String)
    ensures
        r@ == workspace_name(repo_url@, revision@),
{
    let mut name = sanitize(repo_url);
    name.push('@');
    name.append(revision);
    name
}

/// Sanitizing in one pass gives what two passes give: first `_` for each
/// `://`, then `_` for each `/`, `?`, `&` and `:` that is left.
pub proof fn lemma_sanitized_in_two_passes(s: Seq<char>, from: int)
    requires
        0 <= from,
    ensures
        sanitized_from(s, from) == separators_replaced_from(s, from).map_values(
            |c: char| sanitized_char(c),
        ),
    decreases s.len() - from,
{
    let pass = |c: char| sanitized_char(c);
    if from < s.len() {
        let step: int = if scheme_separator_at(s, from) {
            3
        } else {
            1
        };
        lemma_sanitized_in_two_passes(s, from + step);
        let head = separators_replaced_from(s, from).subrange(0, 1);
        let rest = separators_replaced_from(s, from + step);
        assert(separators_replaced_from(s, from) =~= head + rest);
        assert((head + rest).map_values(pass) =~= head.map_values(pass) + rest.map_values(pass));
        assert(sanitized_from(s, from) =~= head.map_values(pass) + rest.map_values(pass));
    } else {
        assert(sanitized_from(s, from) =~= separators_replaced_from(s, from).map_values(pass));
    }
}

/// A sanitized text holds none of `/`, `?`, `&` and `:`.
pub proof fn lemma_sanitized_is_clean(s: Seq<char>, from: int)
    requires
        0 <= from,
    ensures
        forall|i: int|
            0 <= i < sanitized_from(s, from).len() ==> {
                let c = #[trigger] sanitized_from(s, from)[i];
                c != '/' && c != '?' && c != '&' && c != ':'
            },
    decreases s.len() - from,
{
    if from < s.len() {
        let step: int = if scheme_separator_at(s, from) {
            3
        } else {
            1
        };
        lemma_sanitized_is_clean(s, from + step);
        let whole = sanitized_from(s, from);
        let rest = sanitized_from(s, from + step);
        assert forall|i: int| 0 <= i < whole.len() implies {
            let c = #[trigger] whole[i];
            c != '/' && c != '?' && c != '&' && c != ':'
        } by {
            if i > 0 {
                assert(whole[i] == rest[i - 1]);
            }
        }
    }
}

/// Equal repository URLs and equal revisions have the same workspace.
pub proof fn lemma_workspace_is_determined(
    url: Seq<char>,
    revision: Seq<char>,
    other_url: Seq<char>,
    other_revision: Seq<char>,
)
    requires
        url == other_url,
        revision == other_revision,
    ensures
        workspace_name(url, revision) == workspace_name(other_url, other_revision),
{
}

} // verus!
