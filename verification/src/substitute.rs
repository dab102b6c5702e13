//! Putting a new version into the download URL of an archive.
//!
//! A version put in its own place leaves the URL as it is. Another version is
//! looked for with regular expressions, first with an optional leading `v`,
//! then bare; what the expression matched first is replaced by the new
//! version, taken literally. Where neither expression can be used, every
//! occurrence of the old version is replaced instead.

use crate::text::{replace, replaced_all, same_text, spliced};
use regex::{NoExpand, Regex};
use vstd::prelude::*;

verus! {

/// A compiled regular expression of the `regex` crate.
#[verifier::external_type_specification]
#[verifier::external_body]
pub struct ExRegex(regex::Regex);

/// The error with which the `regex` crate refuses a pattern.
#[verifier::external_type_specification]
#[verifier::external_body]
pub struct ExRegexError(regex::Error);

/// Whether `regex::Regex::new` accepts `pattern`: it is well formed and its
/// compiled form stays within the crate's default size limit.
pub uninterp spec fn pattern_compiles(pattern: Seq<char>) -> bool;

/// The regular expression is one that `regex::Regex::new` made, with the
/// options that `new` sets. Of an expression built with other options (one
/// that ignores case, say) the pattern alone would not tell what it matches.
pub uninterp spec fn made_by_new(re: Regex) -> bool;

/// The pattern that a regular expression was compiled from.
pub uninterp spec fn source_pattern(re: Regex) -> Seq<char>;

/// The leftmost-first match of `pattern` in `haystack`, as an expression
/// that `regex::Regex::new` made of the pattern finds it: where the match
/// starts and where it ends, counted in characters; `None` where the pattern
/// matches nowhere.
pub uninterp spec fn leftmost_match(pattern: Seq<char>, haystack: Seq<char>) -> Option<(int, int)>;

/// The match of `pattern` in `haystack`, if there is one, lies within the
/// haystack and does not end before it starts.
pub open spec fn match_within(pattern: Seq<char>, haystack: Seq<char>) -> bool {
    match leftmost_match(pattern, haystack) {
        Some((start, end)) => 0 <= start <= end <= haystack.len(),
        None => true,
    }
}

/// The characters that have a meaning of their own in a regular expression.
pub open spec fn is_meta_character(c: char) -> bool {
    ||| c == '\\'
    ||| c == '.'
    ||| c == '+'
    ||| c == '*'
    ||| c == '?'
    ||| c == '('
    ||| c == ')'
    ||| c == '|'
    ||| c == '['
    ||| c == ']'
    ||| c == '{'
    ||| c == '}'
    ||| c == '^'
    ||| c == '$'
    ||| c == '#'
    ||| c == '&'
    ||| c == '-'
    ||| c == '~'
}

/// `text` with a backslash before each of its meta characters.
pub open spec fn escaped(text: Seq<char>) -> Seq<char>
    decreases text.len(),
{
    if text.len() == 0 {
        Seq::empty()
    } else if is_meta_character(text.last()) {
        escaped(text.drop_last()).push('\\').push(text.last())
    } else {
        escaped(text.drop_last()).push(text.last())
    }
}

/// Calls `regex::escape`, which copies `text` and puts a backslash before
/// every meta character.
#[verifier::external_body]
fn escape(text: &str) -> (r: String)
    ensures
        r@ == escaped(text@),
{
    regex::escape(text)
}

/// Calls `regex::Regex::new`. Whether the pattern is accepted depends on the
/// pattern alone; an accepted pattern is kept by the compiled expression,
/// which is one that `new` made.
#[verifier::external_body]
fn compile(pattern: &str) -> (r: Result<Regex, regex::Error>)
    ensures
        r is Ok <==> pattern_compiles(pattern@),
        r matches Ok(re) ==> made_by_new(re) && source_pattern(re) == pattern@,
{
    Regex::new(pattern)
}

/// Calls `regex::Regex::is_match`, which says whether the expression matches
/// anywhere in the haystack. A match that is found lies within the haystack.
/// What an expression matches is told from its pattern only where
/// `regex::Regex::new` made it.
#[verifier::external_body]
fn is_match(re: &Regex, haystack: &str) -> (r: bool)
    requires
        made_by_new(*re),
    ensures
        r == leftmost_match(source_pattern(*re), haystack@).is_some(),
        r ==> match_within(source_pattern(*re), haystack@),
{
    re.is_match(haystack)
}

/// Calls `regex::Regex::replace` with a `regex::NoExpand` replacement: the
/// leftmost-first match, which lies within the haystack, is replaced by
/// `with`, taken literally; a haystack without a match comes back unchanged.
/// What an expression matches is told from its pattern only where
/// `regex::Regex::new` made it.
#[verifier::external_body]
fn replace_first(re: &Regex, haystack: &str, with: &str) -> (r: String)
    requires
        made_by_new(*re),
    ensures
        match leftmost_match(source_pattern(*re), haystack@) {
            Some((start, end)) => 0 <= start <= end <= haystack@.len() && r@ == spliced(
                haystack@,
                start,
                end,
                with@,
            ),
            None => r@ == haystack@,
        },
{
    re.replace(haystack, NoExpand(with)).into_owned()
}

/// The pattern for a version with an optional leading `v`.
pub open spec fn optional_v_pattern(version: Seq<char>) -> Seq<char> {
    "v?"@ + escaped(version)
}

/// The pattern for a bare version.
pub open spec fn bare_pattern(version: Seq<char>) -> Seq<char> {
    escaped(version)
}

/// What `pattern` makes of `url`: the URL with the first match replaced by
/// `new`, or `None` where the pattern is not accepted or matches nowhere.
pub open spec fn rewritten_by(pattern: Seq<char>, url: Seq<char>, new: Seq<char>) -> Option<
    Seq<char>,
> {
    if pattern_compiles(pattern) {
        match leftmost_match(pattern, url) {
            Some((start, end)) => Some(spliced(url, start, end, new)),
            None => None,
        }
    } else {
        None
    }
}

/// The URL with `old` replaced by `new`. A version put in its own place
/// leaves the URL as it is, a leading `v` included. Another version is put
/// in by the pattern with the optional leading `v` where that one applies,
/// else by the bare pattern, else by replacing every occurrence.
pub open spec fn version_replaced(url: Seq<char>, old: Seq<char>, new: Seq<char>) -> Seq<char> {
    if old == new {
        url
    } else {
        match rewritten_by(optional_v_pattern(old), url, new) {
            Some(rewritten) => rewritten,
            None => match rewritten_by(bare_pattern(old), url, new) {
                Some(rewritten) => rewritten,
                None => replaced_all(url, old, new),
            },
        }
    }
}

/// Rewrites `url` by `pattern`, as [`rewritten_by`] says.
fn rewrite_by(pattern: &str, url: &str, new: &str) -> (r: Option<String>)
    ensures
        match r {
            Some(rewritten) => rewritten_by(pattern@, url@, new@) == Some(rewritten@),
            None => rewritten_by(pattern@, url@, new@) is None,
        },
{
    match compile(pattern) {
        Ok(re) => {
            if is_match(&re, url) {
                Some(replace_first(&re, url, new))
            } else {
                None
            }
        },
        Err(_) => None,
    }
}

/// Chooses the new URL from what the two patterns made of `url`: `with_v` is
/// the result of the pattern with the optional leading `v`, `bare` that of
/// the bare pattern, each `None` where its pattern did not apply. Where
/// neither applied, every occurrence of `old_version` in `url` is replaced by
/// `new_version`.
pub fn substituted(
    with_v: Option<String>,
    bare: Option<String>,
    url: &str,
    old_version: &str,
    new_version: &str,
) -> (r: String)
    ensures
        r@ == match with_v {
            Some(a) => a@,
            None => match bare {
                Some(b) => b@,
                None => replaced_all(url@, old_version@, new_version@),
            },
        },
{
    match with_v {
        Some(rewritten) => rewritten,
        None => match bare {
            Some(rewritten) => rewritten,
            None => replace(url, old_version, new_version),
        },
    }
}

/// The URL of the archive of `new_version`, made from the URL of the archive
/// of `old_version`. Where the two versions are the same, it is the URL as it
/// came.
pub fn replace_version_in_url(url: &str, old_version: &str, new_version: &str) -> (r: String)
    ensures
        r@ == version_replaced(url@, old_version@, new_version@),
        old_version@ == new_version@ ==> r@ == url@,
{
    if same_text(old_version, new_version) {
        return String::from_str(url);
    }
    let bare_version = escape(old_version);
    let v_version = String::from_str("v?").concat(bare_version.as_str());
    let with_v = rewrite_by(v_version.as_str(), url, new_version);
    let bare = if with_v.is_none() {
        rewrite_by(bare_version.as_str(), url, new_version)
    } else {
        None
    };
    substituted(with_v, bare, url, old_version, new_version)
}

/// Substituting a version by itself leaves the URL as it is, whatever the
/// URL holds.
pub proof fn lemma_same_version_keeps_url(url: Seq<char>, version: Seq<char>)
    ensures
        version_replaced(url, version, version) == url,
{
}

} // verus!
