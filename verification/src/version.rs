//! Semantic versions: three numbers with a total order, and their text form.

use crate::text::{lemma_position, lemma_position_is, position};
use std::cmp::Ordering;
use vstd::prelude::*;

verus! {

/// A semantic version: major, minor and patch number.
#[derive(Clone, Copy, Debug, PartialEq, Eq, Structural, PartialOrd, Ord, Hash)]
pub struct Version {
    pub major: u64,
    pub minor: u64,
    pub patch: u64,
}

/// A text was not three dot-separated numbers.
#[derive(Clone, Copy, Debug, PartialEq, Eq, Structural)]
pub struct ParseError {}

/// `a` comes strictly before `b`: lexicographic on (major, minor, patch).
pub open spec fn version_lt(a: Version, b: Version) -> bool {
    a.major < b.major || (a.major == b.major && (a.minor < b.minor || (a.minor == b.minor
        && a.patch < b.patch)))
}

/// `a` comes before `b` or equals it.
pub open spec fn version_le(a: Version, b: Version) -> bool {
    a == b || version_lt(a, b)
}

/// Orders two versions by major, then minor, then patch number.
pub fn compare(a: &Version, b: &Version) -> (r: Ordering)
    ensures
        r == Ordering::Less <==> version_lt(*a, *b),
        r == Ordering::Equal <==> *a == *b,
        r == Ordering::Greater <==> version_lt(*b, *a),
{
    if a.major < b.major {
        Ordering::Less
    } else if a.major > b.major {
        Ordering::Greater
    } else if a.minor < b.minor {
        Ordering::Less
    } else if a.minor > b.minor {
        Ordering::Greater
    } else if a.patch < b.patch {
        Ordering::Less
    } else if a.patch > b.patch {
        Ordering::Greater
    } else {
        Ordering::Equal
    }
}

/// Whether `a` comes strictly before `b`.
pub fn precedes(a: &Version, b: &Version) -> (r: bool)
    ensures
        r == version_lt(*a, *b),
{
    a.major < b.major || (a.major == b.major && (a.minor < b.minor || (a.minor == b.minor
        && a.patch < b.patch)))
}

/// The order of versions is total: any two versions are equal or one comes
/// strictly before the other, never both ways, and the order is transitive.
pub proof fn lemma_version_order_total(a: Version, b: Version, c: Version)
    ensures
        version_lt(a, b) || a == b || version_lt(b, a),
        !(version_lt(a, b) && version_lt(b, a)),
        !version_lt(a, a),
        version_lt(a, b) && version_lt(b, c) ==> version_lt(a, c),
{
}

/// A decimal digit.
pub open spec fn is_digit(c: char) -> bool {
    '0' <= c && c <= '9'
}

/// The number that a decimal digit stands for.
pub open spec fn digit_value(c: char) -> nat {
    (c as int - '0' as int) as nat
}

/// The number that a run of decimal digits stands for; 0 for the empty run.
pub open spec fn decimal_value(s: Seq<char>) -> nat
    decreases s.len(),
{
    if s.len() == 0 {
        0
    } else {
        decimal_value(s.drop_last()) * 10 + digit_value(s.last())
    }
}

/// A version number as it is written: one or more decimal digits, no leading
/// zero but for the number 0 itself, and no more than `u64::MAX`.
pub open spec fn is_numeral(s: Seq<char>) -> bool {
    &&& s.len() > 0
    &&& forall|i: int| 0 <= i < s.len() ==> is_digit(#[trigger] s[i])
    &&& (s.len() > 1 ==> s[0] != '0')
    &&& decimal_value(s) <= u64::MAX
}

/// The version that a text denotes: the text is split at its first two dots,
/// and each of the three parts is a numeral. Any other text denotes none.
pub open spec fn version_text(t: Seq<char>) -> Option<Version> {
    let i = position(t, '.');
    let rest = t.skip(i + 1);
    let j = position(rest, '.');
    let major = t.take(i);
    let minor = rest.take(j);
    let patch = rest.skip(j + 1);
    if i < t.len() && j < rest.len() && is_numeral(major) && is_numeral(minor) && is_numeral(
        patch,
    ) {
        Some(
            Version {
                major: decimal_value(major) as u64,
                minor: decimal_value(minor) as u64,
                patch: decimal_value(patch) as u64,
            },
        )
    } else {
        None
    }
}

/// A text that denotes a version begins with a decimal digit.
pub proof fn lemma_version_text_begins_with_digit(t: Seq<char>)
    requires
        version_text(t) is Some,
    ensures
        t.len() > 0,
        is_digit(t[0]),
{
    lemma_position(t, '.');
    let major = t.take(position(t, '.'));
    assert(major[0] == t[0]);
}

/// The decimal digit that stands for a number below ten.
pub open spec fn digit_char(d: nat) -> char {
    ('0' as int + d) as char
}

/// A number written in decimal digits, without leading zeros.
pub open spec fn decimal(n: nat) -> Seq<char>
    decreases n,
{
    if n < 10 {
        seq![digit_char(n)]
    } else {
        decimal(n / 10).push(digit_char(n % 10))
    }
}

/// The text of a version: its three numbers in decimal, joined by dots.
pub open spec fn version_string(v: Version) -> Seq<char> {
    decimal(v.major as nat) + seq!['.'] + decimal(v.minor as nat) + seq!['.'] + decimal(
        v.patch as nat,
    )
}

/// A number written in decimal is a run of digits, not empty, without a
/// leading zero unless the number is 0, and stands for that number.
pub proof fn lemma_decimal(n: nat)
    ensures
        decimal(n).len() > 0,
        forall|i: int| 0 <= i < decimal(n).len() ==> is_digit(#[trigger] decimal(n)[i]),
        n > 0 ==> decimal(n)[0] != '0',
        decimal(n).len() > 1 ==> decimal(n)[0] != '0',
        decimal_value(decimal(n)) == n,
    decreases n,
{
    let text = decimal(n);
    if n < 10 {
        assert(text.drop_last().len() == 0);
        assert(decimal_value(text) == decimal_value(text.drop_last()) * 10 + digit_value(
            text.last(),
        ));
    } else {
        let front = decimal(n / 10);
        lemma_decimal(n / 10);
        assert(text.drop_last() =~= front);
        assert(text[0] == front[0]);
        assert forall|i: int| 0 <= i < text.len() implies is_digit(#[trigger] text[i]) by {
            if i < front.len() {
                assert(text[i] == front[i]);
            }
        }
    }
}

/// The text of a version denotes that version.
pub proof fn lemma_version_string_denotes(v: Version)
    ensures
        version_text(version_string(v)) == Some(v),
{
    let major = decimal(v.major as nat);
    let minor = decimal(v.minor as nat);
    let patch = decimal(v.patch as nat);
    lemma_decimal(v.major as nat);
    lemma_decimal(v.minor as nat);
    lemma_decimal(v.patch as nat);
    let t = version_string(v);
    assert forall|k: int| 0 <= k < major.len() implies t[k] != '.' by {
        assert(t[k] == major[k]);
    }
    lemma_position_is(t, '.', major.len() as int);
    let rest = t.skip(major.len() as int + 1);
    assert(rest =~= minor + seq!['.'] + patch);
    assert forall|k: int| 0 <= k < minor.len() implies rest[k] != '.' by {
        assert(rest[k] == minor[k]);
    }
    lemma_position_is(rest, '.', minor.len() as int);
    assert(t.take(major.len() as int) =~= major);
    assert(rest.take(minor.len() as int) =~= minor);
    assert(rest.skip(minor.len() as int + 1) =~= patch);
}

/// Calls `semver::Version::parse` and hands out the three numbers it read,
/// with whether the pre-release part and the build metadata are empty.
///
/// Claimed of it: a text that is exactly three numerals joined by dots parses,
/// to those numbers, with both further parts empty; on any other text the call
/// fails or reports a further part that is not empty.
#[verifier::external_body]
fn semver_parse(text: &str) -> (r: Option<(Version, bool, bool)>)
    ensures
        version_text(text@) matches Some(v) ==> r == Some((v, true, true)),
        version_text(text@) is None ==> (r matches Some(p) ==> !(p.1 && p.2)),
{
    match semver::Version::parse(text) {
        Ok(v) => Some(
            (
                Version { major: v.major, minor: v.minor, patch: v.patch },
                v.pre.is_empty(),
                v.build.is_empty(),
            ),
        ),
        Err(_) => None,
    }
}

/// Calls `semver::Version::new` and renders the result with its `Display`.
///
/// Claimed of it: the text is the three numbers in decimal, joined by dots.
#[verifier::external_body]
fn semver_render(v: Version) -> (r: String)
    ensures
        r@ == version_string(v),
{
    semver::Version::new(v.major, v.minor, v.patch).to_string()
}

impl Version {
    /// The version with the given numbers.
    pub fn new(major: u64, minor: u64, patch: u64) -> (v: Version)
        ensures
            v == (Version { major, minor, patch }),
    {
        Version { major, minor, patch }
    }

    /// Reads a version from its text. The text must be three numerals joined
    /// by dots and nothing else: a pre-release part or build metadata is not
    /// accepted, nor a leading `v`.
    pub fn parse(text: &str) -> (r: Result<Version, ParseError>)
        ensures
            r is Ok <==> version_text(text@) is Some,
            r matches Ok(v) ==> version_text(text@) == Some(v),
    {
        match semver_parse(text) {
            Some((v, true, true)) => Ok(v),
            _ => Err(ParseError {  }),
        }
    }

    /// The text of the version, such as `1.2.3`.
    pub fn to_string(&self) -> (r: String)
        ensures
            r@ == version_string(*self),
    {
        semver_render(*self)
    }
}

} // verus!
