//! The source classifier: decides whether an identifier names a
//! version-control remote (git) or a registry package.
//!
//! An identifier that parses as an absolute URL is a git remote. Otherwise,
//! an identifier with exactly one `/` separator is taken as a GitHub
//! `user/repo` shorthand and a `https://github.com/<user>/<repo>.git`
//! locator is synthesized (a heuristic: the repository's existence is not
//! verified, and the hosting provider is fixed). Everything else is a
//! registry package. No network I/O occurs here.

use vstd::prelude::*;
use vstd::string::{StrSliceExecFns, StringExecFns};
use crate::strutil::{count_occurrences, count_char, find_char, lemma_count_two};

verus! {

/// What `url::Url::parse` yields on a string: `Some` exactly when the string
/// parses as an absolute URL, holding the parsed URL's serialization.
pub uninterp spec fn parsed_url(s: Seq<char>) -> Option<Seq<char>>;

/// Relies on `url::Url::parse` and `url::Url::as_str`: parsing succeeds
/// exactly on absolute URLs and is a function of the input string alone;
/// `as_str` returns the parsed URL's (normalized) serialization.
#[verifier::external_body]
pub(crate) fn parse_absolute_url(s: &str) -> (r: Option<String>)
    ensures
        r is Some <==> parsed_url(s@) is Some,
        r matches Some(u) ==> parsed_url(s@) == Some(u@),
{
    match url::Url::parse(s) {
        Ok(u) => Some(u.as_str().to_owned()),
        Err(_) => None,
    }
}

/// How an identifier is sourced.
#[derive(Debug, Clone, PartialEq, Eq)]
pub enum SourceKind {
    /// A version-control remote, with its canonical locator.
    GitRemote(String),
    /// A registry package.
    Registry,
}

/// The mathematical model of a [`SourceKind`].
pub ghost enum SourceModel {
    GitRemote(Seq<char>),
    Registry,
}

impl SourceKind {
    /// The model of this classification.
    pub open spec fn model(&self) -> SourceModel {
        match self {
            SourceKind::GitRemote(u) => SourceModel::GitRemote(u@),
            SourceKind::Registry => SourceModel::Registry,
        }
    }
}

/// The GitHub locator synthesized for a `user/repo` shorthand.
pub open spec fn github_url_chars(user: Seq<char>, repo: Seq<char>) -> Seq<char> {
    "https://github.com/"@ + user + "/"@ + repo + ".git"@
}

/// How an identifier is classified: an absolute URL is a git remote; a
/// name with exactly one `/` is a git remote under the synthesized GitHub
/// locator, when that locator is itself a well-formed URL; anything else
/// is a registry package.
pub open spec fn classify_model(name: Seq<char>) -> SourceModel {
    if parsed_url(name) is Some {
        SourceModel::GitRemote(parsed_url(name)->Some_0)
    } else if count_occurrences(name, '/') == 1 {
        let i = choose|i: int| 0 <= i < name.len() && name[i] == '/';
        let synth = github_url_chars(
            name.subrange(0, i),
            name.subrange(i + 1, name.len() as int),
        );
        match parsed_url(synth) {
            Some(u) => SourceModel::GitRemote(u),
            None => SourceModel::Registry,
        }
    } else {
        SourceModel::Registry
    }
}

/// Classifies an identifier. Recomputed on every call; no caching, no I/O.
pub fn classify(name: &str) -> (r: SourceKind)
    ensures
        r.model() == classify_model(name@),
{
    match parse_absolute_url(name) {
        Some(u) => SourceKind::GitRemote(u),
        None => {
            let slashes = count_char(name, '/');
            if slashes == 1 {
                match find_char(name, '/') {
                    None => {
                        proof {
                            crate::strutil::lemma_count_zero(name@, '/');
                        }
                        SourceKind::Registry
                    },
                    Some(i) => {
                        let n = name.unicode_len();
                        let user = name.substring_char(0, i);
                        let repo = name.substring_char(i + 1, n);
                        let mut synth = String::from_str("https://github.com/");
                        synth.append(user);
                        synth.append("/");
                        synth.append(repo);
                        synth.append(".git");
                        proof {
                            let i2 = choose|j: int|
                                0 <= j < name@.len() && name@[j] == '/';
                            assert(0 <= i < name@.len() && name@[i as int] == '/');
                            if i2 > i {
                                lemma_count_two(name@, '/', i as int, i2);
                            }
                            assert(i2 == i);
                            assert(synth@ == github_url_chars(
                                name@.subrange(0, i as int),
                                name@.subrange(i + 1, name@.len() as int),
                            ));
                        }
                        match parse_absolute_url(synth.as_str()) {
                            Some(u) => SourceKind::GitRemote(u),
                            None => SourceKind::Registry,
                        }
                    },
                }
            } else {
                SourceKind::Registry
            }
        },
    }
}

} // verus!
