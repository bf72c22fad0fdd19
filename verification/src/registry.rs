//! The registry side: the sparse-index URL builder and the decoding and
//! filtering of the registry's version records.

use vstd::prelude::*;
use vstd::string::{StrSliceExecFns, StringExecFns};
use crate::errors::Error;
use crate::source::parsed_url;

verus! {

/// What `str::to_lowercase` yields on a string: its Unicode lowercase
/// equivalent, a function of the characters alone.
pub uninterp spec fn lower_of(s: Seq<char>) -> Seq<char>;

/// Relies on `str::to_lowercase`: the result depends on the characters
/// alone; each character lowercases to at least one character, so the
/// result is empty exactly when the input is.
#[verifier::external_body]
pub(crate) fn to_lowercase_str(s: &str) -> (r: String)
    ensures
        r@ == lower_of(s@),
        (r@.len() == 0) <==> (s@.len() == 0),
{
    s.to_lowercase()
}

/// The sparse-index document location for a lowercase package name,
/// replicating the registry's four-tier sharding convention.
pub open spec fn crate_index_path(n: Seq<char>) -> Seq<char> {
    if n.len() == 1 {
        "https://index.crates.io/1/"@ + n
    } else if n.len() == 2 {
        "https://index.crates.io/2/"@ + n
    } else if n.len() == 3 {
        "https://index.crates.io/3/"@ + n.subrange(0, 1) + "/"@ + n
    } else {
        "https://index.crates.io/"@ + n.subrange(0, 2) + "/"@ + n.subrange(2, 4) + "/"@ + n
    }
}

/// Builds the sparse-index document location for an already lowercased,
/// nonempty package name.
pub fn build_index_path(lowered: &str) -> (r: String)
    requires
        lowered@.len() >= 1,
    ensures
        r@ == crate_index_path(lowered@),
{
    let len = lowered.unicode_len();
    if len == 1 {
        let mut u = String::from_str("https://index.crates.io/1/");
        u.append(lowered);
        proof {
            assert(lowered@.subrange(0, lowered@.len() as int) =~= lowered@);
        }
        u
    } else if len == 2 {
        let mut u = String::from_str("https://index.crates.io/2/");
        u.append(lowered);
        u
    } else if len == 3 {
        let mut u = String::from_str("https://index.crates.io/3/");
        u.append(lowered.substring_char(0, 1));
        u.append("/");
        u.append(lowered);
        u
    } else {
        let mut u = String::from_str("https://index.crates.io/");
        u.append(lowered.substring_char(0, 2));
        u.append("/");
        u.append(lowered.substring_char(2, 4));
        u.append("/");
        u.append(lowered);
        u
    }
}

/// The sparse-index URL of a package name, or `None` where the constructed
/// location is not a well-formed URL.
pub open spec fn crate_url_model(name: Seq<char>) -> Option<Seq<char>> {
    parsed_url(crate_index_path(lower_of(name)))
}

/// Maps a package name to its sparse-index document URL. The name is
/// lowercased first (registry names are case-insensitive for lookup), the
/// tier path is built, and the result is checked to be a well-formed URL
/// rather than assumed; an ill-formed one is a [`Error::MalformedLocator`].
pub fn get_crate_url(name: &str) -> (r: Result<String, Error>)
    requires
        name@.len() >= 1,
    ensures
        r matches Ok(u) ==> crate_url_model(name@) == Some(u@),
        r is Ok <==> crate_url_model(name@) is Some,
        r matches Err(e) ==> e == Error::MalformedLocator,
{
    let lowered = to_lowercase_str(name);
    let candidate = build_index_path(lowered.as_str());
    match crate::source::parse_absolute_url(candidate.as_str()) {
        Some(u) => Ok(u),
        None => Err(Error::MalformedLocator),
    }
}

/// What decoding a registry document yields: the `(version, yanked)` rows of
/// the stream of whitespace-separated JSON records, in order, or `None`
/// where any record is malformed. A function of the document text alone.
pub uninterp spec fn decoded_records(body: Seq<char>) -> Option<Seq<(Seq<char>, bool)>>;

/// Relies on `serde_json::Deserializer::into_iter` (the stream
/// deserializer): consumes one JSON value at a time, separated by
/// whitespace only, without assuming newline framing; each record must be
/// an object with a string `"vers"` and a boolean `"yanked"` (read through
/// `Value::get`, `Value::as_str` and `Value::as_bool`); decoding is a
/// function of the document text alone, and one malformed record fails the
/// whole decode.
#[verifier::external_body]
pub(crate) fn decode_version_records(body: &str) -> (r: Result<Vec<(String, bool)>, Error>)
    ensures
        r is Ok <==> decoded_records(body@) is Some,
        r matches Ok(rows) ==> {
            let d = decoded_records(body@)->Some_0;
            rows@.len() == d.len() && forall|i: int|
                0 <= i < d.len() ==> rows@[i].0@ == d[i].0 && rows@[i].1 == d[i].1
        },
        r matches Err(e) ==> e is DecodeFailure,
{
    let mut rows: Vec<(String, bool)> = Vec::new();
    for record in serde_json::Deserializer::from_str(body).into_iter::<serde_json::Value>() {
        let value = record.map_err(|e| Error::DecodeFailure(e.to_string()))?;
        let vers = value.get("vers").and_then(serde_json::Value::as_str);
        let yanked = value.get("yanked").and_then(serde_json::Value::as_bool);
        match (vers, yanked) {
            (Some(v), Some(y)) => rows.push((v.to_owned(), y)),
            _ => return Err(Error::DecodeFailure(String::from("record lacks vers/yanked"))),
        }
    }
    Ok(rows)
}

/// The versions of the rows that are not yanked, in order.
pub open spec fn visible_versions(rows: Seq<(Seq<char>, bool)>) -> Seq<Seq<char>>
    decreases rows.len(),
{
    if rows.len() == 0 {
        Seq::empty()
    } else {
        let rest = visible_versions(rows.drop_last());
        if rows.last().1 {
            rest
        } else {
            rest.push(rows.last().0)
        }
    }
}

/// Keeps, in order, the version of every row whose `yanked` flag is false.
pub fn filter_versions(rows: &Vec<(String, bool)>) -> (r: Vec<String>)
    ensures
        r.deep_view() == visible_versions(rows.deep_view()),
{
    let mut out: Vec<String> = Vec::new();
    let mut i: usize = 0;
    proof {
        assert(rows.deep_view().subrange(0, 0int) =~= Seq::<(Seq<char>, bool)>::empty());
    }
    while i < rows.len()
        invariant
            0 <= i <= rows.len(),
            rows.deep_view().len() == rows.len(),
            out.deep_view() == visible_versions(rows.deep_view().subrange(0, i as int)),
        decreases rows.len() - i,
    {
        proof {
            assert(rows.deep_view().subrange(0, i + 1).drop_last() =~= rows.deep_view().subrange(
                0,
                i as int,
            ));
        }
        let row = &rows[i];
        if !row.1 {
            out.push(row.0.clone());
            proof {
                assert(out.deep_view() =~= visible_versions(
                    rows.deep_view().subrange(0, i + 1),
                ));
            }
        } else {
            proof {
                assert(out.deep_view() =~= visible_versions(
                    rows.deep_view().subrange(0, i + 1),
                ));
            }
        }
        i = i + 1;
    }
    proof {
        assert(rows.deep_view().subrange(0, rows.deep_view().len() as int) =~= rows.deep_view());
    }
    out
}

/// What resolving a fetched registry document yields: the non-yanked
/// versions in order, or `None` where the decode fails.
pub open spec fn registry_versions_of(body: Seq<char>) -> Option<Seq<Seq<char>>> {
    match decoded_records(body) {
        Some(rows) => Some(visible_versions(rows)),
        None => None,
    }
}

/// Decodes a fetched registry document and keeps the non-yanked versions in
/// order. An empty list is not an error; one malformed record fails the
/// whole operation.
pub fn resolve_registry_body(body: &str) -> (r: Result<Vec<String>, Error>)
    ensures
        r matches Ok(v) ==> registry_versions_of(body@) == Some(v.deep_view()),
        r is Ok <==> registry_versions_of(body@) is Some,
        r matches Err(e) ==> e is DecodeFailure,
{
    match decode_version_records(body) {
        Ok(rows) => {
            let versions = filter_versions(&rows);
            proof {
                assert(rows.deep_view() =~= decoded_records(body@)->Some_0);
            }
            Ok(versions)
        },
        Err(e) => Err(e),
    }
}

} // verus!
