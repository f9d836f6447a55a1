//! Tag names and what is done with them: bumping a version, the canonical
//! form of a tag, its validation, and the operator's confirmation.

use crate::text::{is_space, joined, lemma_trimmed_plain, owned, trim, trimmed};
use crate::version::{
    lemma_version_string_denotes, lemma_version_text_begins_with_digit, version_string,
    version_text, Version,
};
use vstd::prelude::*;
use vstd::string::StringExecFns;

verus! {

/// Which number of a version a release raises.
#[derive(Debug, Clone, Copy, PartialEq, Eq, Structural)]
pub enum BumpType {
    Patch,
    Minor,
    Major,
}

/// The name of a bump as the operator reads it.
pub open spec fn bump_name(bump: BumpType) -> Seq<char> {
    match bump {
        BumpType::Patch => "Patch"@,
        BumpType::Minor => "Minor"@,
        BumpType::Major => "Major"@,
    }
}

impl BumpType {
    /// The name of the bump: `Patch`, `Minor` or `Major`.
    pub fn to_string(&self) -> (r: String)
        ensures
            r@ == bump_name(*self),
    {
        match self {
            BumpType::Patch => owned("Patch"),
            BumpType::Minor => owned("Minor"),
            BumpType::Major => owned("Major"),
        }
    }
}

/// The number that the bump raises is below `u64::MAX`, so that it can be
/// raised.
pub open spec fn can_bump(v: Version, bump: BumpType) -> bool {
    match bump {
        BumpType::Patch => v.patch < u64::MAX,
        BumpType::Minor => v.minor < u64::MAX,
        BumpType::Major => v.major < u64::MAX,
    }
}

/// The version that follows `v` under a bump: the bumped number is one
/// higher, the numbers after it are zero, the numbers before it are kept.
pub open spec fn bumped(v: Version, bump: BumpType) -> Version {
    match bump {
        BumpType::Patch => Version { major: v.major, minor: v.minor, patch: (v.patch + 1) as u64 },
        BumpType::Minor => Version { major: v.major, minor: (v.minor + 1) as u64, patch: 0 },
        BumpType::Major => Version { major: (v.major + 1) as u64, minor: 0, patch: 0 },
    }
}

/// The version that follows `latest` under the given bump.
pub fn bump_version(latest: &Version, bump: BumpType) -> (r: Version)
    requires
        can_bump(*latest, bump),
    ensures
        r == bumped(*latest, bump),
        bump == BumpType::Patch ==> r.major == latest.major && r.minor == latest.minor && r.patch
            == latest.patch + 1,
        bump == BumpType::Minor ==> r.major == latest.major && r.minor == latest.minor + 1
            && r.patch == 0,
        bump == BumpType::Major ==> r.major == latest.major + 1 && r.minor == 0 && r.patch == 0,
{
    match bump {
        BumpType::Patch => Version {
            major: latest.major,
            minor: latest.minor,
            patch: latest.patch + 1,
        },
        BumpType::Minor => Version { major: latest.major, minor: latest.minor + 1, patch: 0 },
        BumpType::Major => Version { major: latest.major + 1, minor: 0, patch: 0 },
    }
}

/// The version that follows `latest` under the given bump, or `None` where
/// the number to raise is already `u64::MAX`.
pub fn checked_bump(latest: &Version, bump: BumpType) -> (r: Option<Version>)
    ensures
        r == if can_bump(*latest, bump) {
            Some(bumped(*latest, bump))
        } else {
            None
        },
{
    let room = match bump {
        BumpType::Patch => latest.patch < u64::MAX,
        BumpType::Minor => latest.minor < u64::MAX,
        BumpType::Major => latest.major < u64::MAX,
    };
    if room {
        Some(bump_version(latest, bump))
    } else {
        None
    }
}

/// The text begins with the letter `v`.
pub open spec fn has_v_prefix(t: Seq<char>) -> bool {
    t.len() > 0 && t[0] == 'v'
}

/// The canonical form of a tag: the text itself where it begins with `v`,
/// else the text with a `v` put before it.
pub open spec fn canonical(t: Seq<char>) -> Seq<char> {
    if has_v_prefix(t) {
        t
    } else {
        seq!['v'] + t
    }
}

/// A valid tag: the letter `v` and, after it, a text that denotes a version.
pub open spec fn valid_tag(t: Seq<char>) -> bool {
    has_v_prefix(t) && version_text(t.skip(1)) is Some
}

/// Whether the text begins with the letter `v`.
pub fn starts_with_v(tag: &str) -> (r: bool)
    ensures
        r == has_v_prefix(tag@),
{
    !tag.is_empty() && tag.get_char(0) == 'v'
}

/// The text after the first character.
pub fn after_first(tag: &str) -> (r: &str)
    requires
        tag@.len() > 0,
    ensures
        r@ == tag@.skip(1),
{
    let n = tag.unicode_len();
    tag.substring_char(1, n)
}

/// Puts a tag into canonical form: a text that begins with `v` is returned
/// as it is, any other gets a `v` put before it.
pub fn format_vtag(tag: &str) -> (r: String)
    ensures
        r@ == canonical(tag@),
{
    if starts_with_v(tag) {
        owned(tag)
    } else {
        proof {
            reveal_strlit("v");
            assert("v"@ =~= seq!['v']);
        }
        joined("v", tag)
    }
}

/// Whether a text is a valid tag: it begins with `v` and the rest parses as a
/// version. A bare version without the `v` is not a valid tag.
pub fn is_valid_tag(tag: &str) -> (r: bool)
    ensures
        r == valid_tag(tag@),
{
    if starts_with_v(tag) {
        Version::parse(after_first(tag)).is_ok()
    } else {
        false
    }
}

/// The operator's answer is a yes: after trimming white space it is the
/// single letter `y`, in either case.
pub open spec fn affirms(answer: Seq<char>) -> bool {
    trimmed(answer) == seq!['y'] || trimmed(answer) == seq!['Y']
}

/// Whether the operator's answer confirms: `y` or `Y`, white space around it
/// aside. Anything else declines.
pub fn parse_confirm(input: &str) -> (r: bool)
    ensures
        r == affirms(input@),
{
    let answer = trim(input);
    if answer.unicode_len() == 1 {
        let c = answer.get_char(0);
        assert(answer@ =~= seq![c]);
        c == 'y' || c == 'Y'
    } else {
        false
    }
}

/// The question put to the operator before a tag is created.
pub open spec fn confirm_text(tag: Seq<char>, branch: Seq<char>) -> Seq<char> {
    "Create tag '"@ + tag + "' on branch '"@ + branch + "'? (y/N):"@
}

/// The question put to the operator before a tag is created: it names the
/// tag and the branch.
pub fn confirm_message(tag: &str, branch: &str) -> (r: String)
    ensures
        r@ == confirm_text(tag@, branch@),
{
    let mut r = joined("Create tag '", tag);
    r.append("' on branch '");
    r.append(branch);
    r.append("'? (y/N):");
    r
}

/// Of the answers without white space, only `y` and `Y` confirm.
pub proof fn lemma_affirms_plain(answer: Seq<char>)
    requires
        forall|i: int| 0 <= i < answer.len() ==> !is_space(#[trigger] answer[i]),
    ensures
        affirms(answer) <==> answer == seq!['y'] || answer == seq!['Y'],
{
    if answer.len() > 0 {
        assert(!is_space(answer[0]));
        assert(!is_space(answer[answer.len() - 1]));
    }
    lemma_trimmed_plain(answer);
}

/// Putting a tag into canonical form twice gives what doing it once gives.
pub proof fn lemma_canonical_idempotent(t: Seq<char>)
    ensures
        canonical(canonical(t)) == canonical(t),
{
    assert(has_v_prefix(canonical(t)));
}

/// The canonical form of a text that denotes a version is a valid tag.
pub proof fn lemma_canonical_version_is_valid(t: Seq<char>)
    requires
        version_text(t) is Some,
    ensures
        valid_tag(canonical(t)),
{
    lemma_version_text_begins_with_digit(t);
    assert(!has_v_prefix(t));
    assert(canonical(t).skip(1) =~= t);
}

/// A text without the `v` in front is no valid tag, whatever follows.
pub proof fn lemma_unprefixed_is_invalid(t: Seq<char>)
    requires
        !has_v_prefix(t),
    ensures
        !valid_tag(t),
{
}

/// The canonical form of a version's text is a valid tag: a tag that is
/// computed from a version never fails validation.
pub proof fn lemma_version_tag_is_valid(v: Version)
    ensures
        valid_tag(canonical(version_string(v))),
        canonical(version_string(v)) == seq!['v'] + version_string(v),
{
    lemma_version_string_denotes(v);
    lemma_version_text_begins_with_digit(version_string(v));
    lemma_canonical_version_is_valid(version_string(v));
}

} // verus!
