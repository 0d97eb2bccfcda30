//! From a package identifier to the URL of its repository.
//!
//! An identifier is either the URL of a GitHub repository, which is taken as
//! it stands, or the shorthand `owner/repo`, which is expanded. Nothing is
//! fetched: the answer depends on the text alone.

use vstd::prelude::*;
use crate::error::{InstallError, InstallErrorView};
use crate::text::{chars_of, ends_with, has_suffix, same_text};

verus! {

/// What the logic reads of a parsed URL.
#[derive(Debug, PartialEq, Eq)]
pub struct UrlParts {
    /// The host, where the URL has one.
    pub host: Option<String>,
    /// The path, as the parser normalized it.
    pub path: String,
}

/// The mathematical view of [`UrlParts`]: the same value over sequences of
/// characters.
pub struct UrlPartsView {
    pub host: Option<Seq<char>>,
    pub path: Seq<char>,
}

impl View for UrlParts {
    type V = UrlPartsView;

    open spec fn view(&self) -> UrlPartsView {
        UrlPartsView {
            host: match self.host {
                Some(host) => Some(host@),
                None => None,
            },
            path: self.path@,
        }
    }
}

/// What `url::Url::parse` makes of a text: the host and the path of the URL,
/// or nothing where the text is no absolute URL.
pub uninterp spec fn parsed_url(text: Seq<char>) -> Option<UrlPartsView>;

/// Calls `url::Url::parse` and reads `host_str` and `path` off the URL. The
/// outcome depends on the text alone; the contract gives it the name
/// `parsed_url`. It also states that a text without a colon is no absolute
/// URL: the parser asks for a scheme, which ends in a colon, and without one
/// answers that a relative URL has no base.
#[verifier::external_body]
fn parse_url(text: &str) -> (r: Option<UrlParts>)
    ensures
        match r {
            Some(parts) => parsed_url(text@) == Some(parts@),
            None => parsed_url(text@) is None,
        },
        !text@.contains(':') ==> r is None,
{
    match url::Url::parse(text) {
        Ok(url) => Some(
            UrlParts { host: url.host_str().map(|h| h.to_owned()), path: url.path().to_owned() },
        ),
        Err(_) => None,
    }
}

/// A character of an owner's or a repository's name.
pub open spec fn is_name_char(c: char) -> bool {
    ('a' <= c && c <= 'z') || ('A' <= c && c <= 'Z') || ('0' <= c && c <= '9') || c == '_' || c
        == '-'
}

/// A name: one character or more, each a letter, a digit, `_` or `-`.
pub open spec fn is_name(s: Seq<char>) -> bool {
    s.len() > 0 && forall|i: int| 0 <= i < s.len() ==> is_name_char(#[trigger] s[i])
}

/// Whether `s` has a name before the position `k`, a `/` at it and a name
/// behind it.
pub open spec fn splits_at(s: Seq<char>, k: int) -> bool {
    0 <= k < s.len() && s[k] == '/' && is_name(s.subrange(0, k)) && is_name(
        s.subrange(k + 1, s.len() as int),
    )
}

/// The shorthand `owner/repo`: two names with one `/` between them.
pub open spec fn is_shorthand(s: Seq<char>) -> bool {
    exists|k: int| splits_at(s, k)
}

/// Whether a URL names a repository on GitHub: its host is `github.com` and
/// its path ends in `.git`.
pub open spec fn is_github_repository(parts: UrlPartsView) -> bool {
    parts.host == Some("github.com"@) && ends_with(parts.path, ".git"@)
}

/// The URL that the shorthand `owner/repo` stands for.
pub open spec fn expanded(shorthand: Seq<char>) -> Seq<char> {
    "https://github.com/"@ + shorthand + ".git"@
}

/// The repository URL that an identifier stands for, given what the URL
/// parser made of it; `None` where it stands for none.
pub open spec fn repository_url(identifier: Seq<char>, parsed: Option<UrlPartsView>) -> Option<
    Seq<char>,
> {
    if parsed is Some && is_github_repository(parsed->0) {
        Some(identifier)
    } else if is_shorthand(identifier) {
        Some(expanded(identifier))
    } else {
        None
    }
}

/// A resolved repository is the identifier itself, where that is the URL of
/// a GitHub repository, or else the expansion of a shorthand, which starts
/// with `https://github.com/` and ends with `.git`.
pub proof fn lemma_resolved_repository(identifier: Seq<char>, parsed: Option<UrlPartsView>)
    requires
        repository_url(identifier, parsed) is Some,
    ensures
        ({
            let url = repository_url(identifier, parsed)->0;
            ||| parsed is Some && is_github_repository(parsed->0) && url == identifier
            ||| is_shorthand(identifier) && url == expanded(identifier) && ends_with(url, ".git"@)
                && url.subrange(0, "https://github.com/"@.len() as int) == "https://github.com/"@
        }),
{
    if !(parsed is Some && is_github_repository(parsed->0)) {
        let url = expanded(identifier);
        let head = "https://github.com/"@;
        let tail = ".git"@;
        assert(url.subrange(url.len() - tail.len(), url.len() as int) =~= tail);
        assert(url.subrange(0, head.len() as int) =~= head);
    }
}

/// A shorthand holds no colon.
pub proof fn lemma_shorthand_has_no_colon(s: Seq<char>)
    requires
        is_shorthand(s),
    ensures
        !s.contains(':'),
{
    let k = choose|k: int| splits_at(s, k);
    assert forall|i: int| 0 <= i < s.len() implies s[i] != ':' by {
        if i < k {
            assert(s.subrange(0, k)[i] == s[i]);
        } else if i > k {
            assert(s.subrange(k + 1, s.len() as int)[i - k - 1] == s[i]);
        }
    }
}

fn name_char(c: char) -> (r: bool)
    ensures
        r == is_name_char(c),
{
    ('a' <= c && c <= 'z') || ('A' <= c && c <= 'Z') || ('0' <= c && c <= '9') || c == '_' || c
        == '-'
}

/// The length of the longest run of name characters in `chars` from `from`.
fn name_run(chars: &Vec<char>, from: usize) -> (end: usize)
    requires
        from <= chars@.len(),
    ensures
        from <= end <= chars@.len(),
        forall|i: int| from <= i < end ==> is_name_char(#[trigger] chars@[i]),
        end < chars@.len() ==> !is_name_char(chars@[end as int]),
{
    let mut end: usize = from;
    while end < chars.len() && name_char(chars[end])
        invariant
            from <= end <= chars@.len(),
            forall|i: int| from <= i < end ==> is_name_char(#[trigger] chars@[i]),
        decreases chars@.len() - end,
    {
        end += 1;
    }
    end
}

/// Whether `s` is the shorthand `owner/repo`.
pub fn shorthand(s: &str) -> (r: bool)
    ensures
        r == is_shorthand(s@),
{
    let chars = chars_of(s);
    let n: usize = chars.len();
    let k: usize = name_run(&chars, 0);
    if k == 0 || k >= n || chars[k] != '/' {
        proof {
            if is_shorthand(chars@) {
                let w = choose|w: int| splits_at(chars@, w);
                lemma_split_is_first_stop(chars@, w, k as int);
            }
        }
        return false;
    }
    let end: usize = name_run(&chars, k + 1);
    if end == k + 1 || end < n {
        proof {
            if is_shorthand(chars@) {
                let w = choose|w: int| splits_at(chars@, w);
                lemma_split_is_first_stop(chars@, w, k as int);
                let tail = chars@.subrange(k + 1, n as int);
                if end < n {
                    assert(tail[end - k - 1] == chars@[end as int]);
                }
            }
        }
        return false;
    }
    proof {
        let head = chars@.subrange(0, k as int);
        let tail = chars@.subrange(k + 1, n as int);
        assert forall|i: int| 0 <= i < head.len() implies is_name_char(#[trigger] head[i]) by {
            assert(head[i] == chars@[i]);
        }
        assert forall|i: int| 0 <= i < tail.len() implies is_name_char(#[trigger] tail[i]) by {
            assert(tail[i] == chars@[k + 1 + i]);
        }
        assert(splits_at(chars@, k as int));
    }
    true
}

/// Where a text splits into two names, the split is where the first run of
/// name characters stops.
proof fn lemma_split_is_first_stop(s: Seq<char>, w: int, k: int)
    requires
        splits_at(s, w),
        0 <= k <= s.len(),
        forall|i: int| 0 <= i < k ==> is_name_char(#[trigger] s[i]),
        k < s.len() ==> !is_name_char(s[k]),
    ensures
        w == k,
{
    if w < k {
        assert(is_name_char(s[w]));
    } else if k < w {
        assert(s.subrange(0, w)[k] == s[k]);
    }
}

/// A resolved repository.
#[derive(Debug, PartialEq, Eq)]
pub struct SwiftPackageRepo {
    /// The URL from which the repository is fetched.
    pub url: String,
}

impl SwiftPackageRepo {
    /// Resolves an identifier, given what the URL parser made of it.
    ///
    /// The URL of a GitHub repository is taken as it stands; the shorthand
    /// `owner/repo` becomes `https://github.com/owner/repo.git`; anything
    /// else is refused, with the identifier in the error.
    pub fn from_parts(s: &str, parsed: &Option<UrlParts>) -> (r: Result<
        SwiftPackageRepo,
        InstallError,
    >)
        ensures
            match r {
                Ok(repo) => repository_url(
                    s@,
                    match *parsed {
                        Some(p) => Some(p@),
                        None => None,
                    },
                ) == Some(repo.url@),
                Err(e) => repository_url(
                    s@,
                    match *parsed {
                        Some(p) => Some(p@),
                        None => None,
                    },
                ) is None && e@ == (InstallErrorView::InvalidRepositoryIdentifier {
                    identifier: s@,
                }),
            },
    {
        let github = match parsed {
            Some(parts) => match &parts.host {
                Some(host) => same_text(host.as_str(), "github.com") && has_suffix(
                    parts.path.as_str(),
                    ".git",
                ),
                None => false,
            },
            None => false,
        };
        if github {
            Ok(SwiftPackageRepo { url: s.to_owned() })
        } else if shorthand(s) {
            let mut url = "https://github.com/".to_owned();
            url.append(s);
            url.append(".git");
            Ok(SwiftPackageRepo { url })
        } else {
            Err(InstallError::InvalidRepositoryIdentifier { identifier: s.to_owned() })
        }
    }

    /// Resolves an identifier.
    ///
    /// The outcome is that of [`SwiftPackageRepo::from_parts`] on what the
    /// URL parser makes of the identifier. The parser makes nothing of a
    /// text without a colon, so such a text is expanded where it is a
    /// shorthand and refused where it is none.
    pub fn from_str(s: &str) -> (r: Result<SwiftPackageRepo, InstallError>)
        ensures
            match r {
                Ok(repo) => repository_url(s@, parsed_url(s@)) == Some(repo.url@),
                Err(e) => repository_url(s@, parsed_url(s@)) is None && e@ == (
                InstallErrorView::InvalidRepositoryIdentifier { identifier: s@ }),
            },
            !s@.contains(':') ==> parsed_url(s@) is None,
            is_shorthand(s@) ==> r is Ok && r->Ok_0.url@ == expanded(s@),
            !s@.contains(':') && !is_shorthand(s@) ==> r is Err,
    {
        let parsed = parse_url(s);
        proof {
            if is_shorthand(s@) {
                lemma_shorthand_has_no_colon(s@);
            }
        }
        SwiftPackageRepo::from_parts(s, &parsed)
    }
}

} // verus!
