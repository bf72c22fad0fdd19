//! The tagged version specifier parsed from a user-supplied version string.
//!
//! Parsing is total and unambiguous: the prefixes are checked in a fixed
//! order (`rev:`, `branch:`, `tag:`) before falling back to `HEAD` or a
//! bare registry version.

use vstd::prelude::*;
use vstd::string::{StrSliceExecFns, StringExecFns};
use crate::strutil::has_prefix;

verus! {

/// A parsed version specifier.
#[derive(Debug, Clone, PartialEq, Eq)]
pub enum VersionSpecifier {
    /// The literal string `HEAD`.
    Head,
    /// The string after the prefix `rev:`.
    Rev(String),
    /// The string after the prefix `branch:`.
    Branch(String),
    /// The string after the prefix `tag:`.
    Tag(String),
    /// Any other string, used verbatim against a registry-mode install.
    Registry(String),
}

/// The mathematical model of a [`VersionSpecifier`].
pub ghost enum SpecifierModel {
    Head,
    Rev(Seq<char>),
    Branch(Seq<char>),
    Tag(Seq<char>),
    Registry(Seq<char>),
}

pub open spec fn rev_prefix() -> Seq<char> {
    seq!['r', 'e', 'v', ':']
}

pub open spec fn branch_prefix() -> Seq<char> {
    seq!['b', 'r', 'a', 'n', 'c', 'h', ':']
}

pub open spec fn tag_prefix() -> Seq<char> {
    seq!['t', 'a', 'g', ':']
}

pub open spec fn head_chars() -> Seq<char> {
    seq!['H', 'E', 'A', 'D']
}

/// What parsing a version string yields: the prefixes in order, then the
/// literal `HEAD`, then a bare registry version.
pub open spec fn parse_model(s: Seq<char>) -> SpecifierModel {
    if has_prefix(s, rev_prefix()) {
        SpecifierModel::Rev(s.subrange(rev_prefix().len() as int, s.len() as int))
    } else if has_prefix(s, branch_prefix()) {
        SpecifierModel::Branch(s.subrange(branch_prefix().len() as int, s.len() as int))
    } else if has_prefix(s, tag_prefix()) {
        SpecifierModel::Tag(s.subrange(tag_prefix().len() as int, s.len() as int))
    } else if s == head_chars() {
        SpecifierModel::Head
    } else {
        SpecifierModel::Registry(s)
    }
}

impl VersionSpecifier {
    /// The model of this specifier.
    pub open spec fn model(&self) -> SpecifierModel {
        match self {
            VersionSpecifier::Head => SpecifierModel::Head,
            VersionSpecifier::Rev(r) => SpecifierModel::Rev(r@),
            VersionSpecifier::Branch(b) => SpecifierModel::Branch(b@),
            VersionSpecifier::Tag(t) => SpecifierModel::Tag(t@),
            VersionSpecifier::Registry(v) => SpecifierModel::Registry(v@),
        }
    }

    /// Parses a version string into exactly one specifier.
    pub fn parse(s: &str) -> (r: VersionSpecifier)
        ensures
            r.model() == parse_model(s@),
    {
        let len = s.unicode_len();
        if crate::strutil::starts_with_prefix(s, "rev:") {
            proof {
                reveal_strlit("rev:");
                assert("rev:"@ =~= rev_prefix());
            }
            let rest = s.substring_char(4, len);
            VersionSpecifier::Rev(String::from_str(rest))
        } else if crate::strutil::starts_with_prefix(s, "branch:") {
            proof {
                reveal_strlit("rev:");
                reveal_strlit("branch:");
                assert("rev:"@ =~= rev_prefix());
                assert("branch:"@ =~= branch_prefix());
            }
            let rest = s.substring_char(7, len);
            VersionSpecifier::Branch(String::from_str(rest))
        } else if crate::strutil::starts_with_prefix(s, "tag:") {
            proof {
                reveal_strlit("rev:");
                reveal_strlit("branch:");
                reveal_strlit("tag:");
                assert("rev:"@ =~= rev_prefix());
                assert("branch:"@ =~= branch_prefix());
                assert("tag:"@ =~= tag_prefix());
            }
            let rest = s.substring_char(4, len);
            VersionSpecifier::Tag(String::from_str(rest))
        } else if crate::strutil::str_eq(s, "HEAD") {
            proof {
                reveal_strlit("rev:");
                reveal_strlit("branch:");
                reveal_strlit("tag:");
                reveal_strlit("HEAD");
                assert("rev:"@ =~= rev_prefix());
                assert("branch:"@ =~= branch_prefix());
                assert("tag:"@ =~= tag_prefix());
                assert("HEAD"@ =~= head_chars());
            }
            VersionSpecifier::Head
        } else {
            proof {
                reveal_strlit("rev:");
                reveal_strlit("branch:");
                reveal_strlit("tag:");
                reveal_strlit("HEAD");
                assert("rev:"@ =~= rev_prefix());
                assert("branch:"@ =~= branch_prefix());
                assert("tag:"@ =~= tag_prefix());
                assert("HEAD"@ =~= head_chars());
            }
            VersionSpecifier::Registry(String::from_str(s))
        }
    }
}

} // verus!
