//! What the tool decides about a repository from plain values that its
//! driver read there: the latest version among the tag names, the names of
//! the references to look up, whether a tag may be created, and the owner and
//! repository that a remote URL names.

use crate::tag::{after_first, has_v_prefix, starts_with_v};
use crate::text::{chars_of, joined, lemma_position_is, owned, position, trim, trimmed};
use crate::version::{precedes, version_le, version_lt, version_text, Version};
use vstd::prelude::*;
use vstd::string::StringExecFns;

verus! {

/// Why a question about the repository has no answer, or a command on it
/// did not succeed.
#[derive(Debug, Clone, PartialEq, Eq)]
pub enum GitError {
    /// No branch is checked out.
    DetachedHead,
    /// No tag name denotes a version.
    NoVersionTags,
    /// The tag exists already, at the given target.
    TagExists { tag: String, target: String },
    /// The remote has no URL.
    NoRemoteUrl,
    /// The remote URL is not of a recognised shape.
    InvalidUrl,
    /// Fetching from the remote failed.
    FetchFailed,
    /// Creating the tag failed.
    TagFailed,
    /// Pushing the tag failed.
    PushFailed,
}

/// A command that the driver runs on the repository.
#[derive(Debug, Clone, Copy, PartialEq, Eq, Structural)]
pub enum GitCommand {
    Fetch,
    Tag,
    Push,
}

/// The line that reports an error.
pub open spec fn git_error_text(e: GitError) -> Seq<char> {
    match e {
        GitError::DetachedHead => "HEAD is not pointing to a branch"@,
        GitError::NoVersionTags => "No valid semver tags found"@,
        GitError::TagExists { tag, target } => "Tag '"@ + tag@ + "' already exists at "@ + target@,
        GitError::NoRemoteUrl => "Remote URL not found"@,
        GitError::InvalidUrl => "Invalid GitHub URL"@,
        GitError::FetchFailed => "git fetch failed"@,
        GitError::TagFailed => "git tag command failed"@,
        GitError::PushFailed => "git push tag failed"@,
    }
}

impl GitError {
    /// The line that reports the error.
    pub fn message(&self) -> (r: String)
        ensures
            r@ == git_error_text(*self),
    {
        match self {
            GitError::DetachedHead => owned("HEAD is not pointing to a branch"),
            GitError::NoVersionTags => owned("No valid semver tags found"),
            GitError::TagExists { tag, target } => {
                let mut r = joined("Tag '", tag.as_str());
                r.append("' already exists at ");
                r.append(target.as_str());
                r
            },
            GitError::NoRemoteUrl => owned("Remote URL not found"),
            GitError::InvalidUrl => owned("Invalid GitHub URL"),
            GitError::FetchFailed => owned("git fetch failed"),
            GitError::TagFailed => owned("git tag command failed"),
            GitError::PushFailed => owned("git push tag failed"),
        }
    }
}

/// The error that a failed command is reported with.
pub open spec fn command_error(command: GitCommand) -> GitError {
    match command {
        GitCommand::Fetch => GitError::FetchFailed,
        GitCommand::Tag => GitError::TagFailed,
        GitCommand::Push => GitError::PushFailed,
    }
}

/// What a command's exit status means: success, or the command's error.
pub fn command_result(command: GitCommand, succeeded: bool) -> (r: Result<(), GitError>)
    ensures
        r == if succeeded {
            Ok::<(), GitError>(())
        } else {
            Err(command_error(command))
        },
{
    if succeeded {
        Ok(())
    } else {
        match command {
            GitCommand::Fetch => Err(GitError::FetchFailed),
            GitCommand::Tag => Err(GitError::TagFailed),
            GitCommand::Push => Err(GitError::PushFailed),
        }
    }
}

/// A repository can be worked on only where its head is on a branch.
pub fn require_branch(head_is_branch: bool) -> (r: Result<(), GitError>)
    ensures
        r == if head_is_branch {
            Ok::<(), GitError>(())
        } else {
            Err(GitError::DetachedHead)
        },
{
    if head_is_branch {
        Ok(())
    } else {
        Err(GitError::DetachedHead)
    }
}

/// The name under which a branch is reported: its short name, or `unknown`
/// where it has none.
pub fn branch_name(shorthand: Option<&str>) -> (r: String)
    ensures
        r@ == match shorthand {
            Some(name) => name@,
            None => "unknown"@,
        },
{
    match shorthand {
        Some(name) => owned(name),
        None => owned("unknown"),
    }
}

/// The reference under which a tag is kept.
pub open spec fn tag_reference_text(tag: Seq<char>) -> Seq<char> {
    "refs/tags/"@ + tag
}

/// The reference under which a tag is kept.
pub fn tag_reference(tag: &str) -> (r: String)
    ensures
        r@ == tag_reference_text(tag@),
{
    joined("refs/tags/", tag)
}

/// The reference that follows a branch of the remote `origin`.
pub open spec fn remote_reference_text(branch: Seq<char>) -> Seq<char> {
    "refs/remotes/origin/"@ + branch
}

/// The reference that follows a branch of the remote `origin`.
pub fn remote_reference(branch: &str) -> (r: String)
    ensures
        r@ == remote_reference_text(branch@),
{
    joined("refs/remotes/origin/", branch)
}

/// Whether a tag may be created, given what was found under its reference:
/// nothing (`None`), or a reference with its target, if it has one. A tag
/// that exists is refused, and the error names the target, `unknown` where
/// there is none.
pub fn ensure_tag_absent(tag: &str, existing: Option<Option<String>>) -> (r: Result<(), GitError>)
    ensures
        existing is None ==> r is Ok,
        existing matches Some(found) ==> r matches Err(GitError::TagExists { tag: named, target })
            && named@ == tag@ && target@ == match found {
            Some(id) => id@,
            None => "unknown"@,
        },
{
    match existing {
        None => Ok(()),
        Some(Some(id)) => Err(GitError::TagExists { tag: owned(tag), target: id }),
        Some(None) => Err(GitError::TagExists { tag: owned(tag), target: owned("unknown") }),
    }
}

/// Where the access token for the hosting service comes from.
#[derive(Debug, Clone, PartialEq, Eq)]
pub enum TokenSource {
    /// The environment holds it.
    Environment(String),
    /// The authentication helper is to be asked.
    Helper,
}

/// Chooses the access token among two environment variables: the first that
/// is set wins; where neither is set, the helper is to be asked.
pub fn token_source(first: Option<String>, second: Option<String>) -> (r: TokenSource)
    ensures
        match (first, second) {
            (Some(token), _) => r matches TokenSource::Environment(t) && t@ == token@,
            (None, Some(token)) => r matches TokenSource::Environment(t) && t@ == token@,
            (None, None) => r == TokenSource::Helper,
        },
{
    match first {
        Some(token) => TokenSource::Environment(token),
        None => match second {
            Some(token) => TokenSource::Environment(token),
            None => TokenSource::Helper,
        },
    }
}

/// The token that the authentication helper gave: what it printed, without
/// the white space around it, where it succeeded and printed text; else the
/// empty token.
pub fn helper_token(succeeded: bool, output: Option<&str>) -> (r: String)
    ensures
        r@ == match output {
            Some(printed) if succeeded => trimmed(printed@),
            _ => Seq::<char>::empty(),
        },
{
    match output {
        Some(printed) if succeeded => owned(trim(printed)),
        _ => String::new(),
    }
}


/// The texts of a list of strings.
pub open spec fn texts(tags: Seq<String>) -> Seq<Seq<char>> {
    Seq::new(tags.len(), |i: int| tags[i]@)
}

/// The version that a tag name denotes: the name is read without its leading
/// `v`, where it has one. A name that is not a version denotes none.
pub open spec fn tag_version(tag: Seq<char>) -> Option<Version> {
    if has_v_prefix(tag) {
        version_text(tag.skip(1))
    } else {
        version_text(tag)
    }
}

/// The later of two versions; the first where they are equal.
pub open spec fn later(a: Version, b: Version) -> Version {
    if version_lt(a, b) {
        b
    } else {
        a
    }
}

/// The latest version that the tag names denote, or none where no name
/// denotes a version.
pub open spec fn latest_of(tags: Seq<Seq<char>>) -> Option<Version>
    decreases tags.len(),
{
    if tags.len() == 0 {
        None
    } else {
        match (latest_of(tags.drop_last()), tag_version(tags.last())) {
            (Some(a), Some(b)) => Some(later(a, b)),
            (Some(a), None) => Some(a),
            (None, found) => found,
        }
    }
}

/// The latest version ignores the names that denote no version and is the
/// greatest of the others: some name denotes it, and no name denotes a later
/// one. There is none exactly where no name denotes a version.
pub proof fn lemma_latest_of(tags: Seq<Seq<char>>)
    ensures
        latest_of(tags) is None <==> forall|i: int|
            0 <= i < tags.len() ==> tag_version(#[trigger] tags[i]) is None,
        latest_of(tags) matches Some(v) ==> {
            &&& exists|i: int| 0 <= i < tags.len() && tag_version(#[trigger] tags[i]) == Some(v)
            &&& forall|i: int|
                0 <= i < tags.len() ==> (tag_version(#[trigger] tags[i]) matches Some(w)
                    ==> version_le(w, v))
        },
    decreases tags.len(),
{
    if tags.len() > 0 {
        let init = tags.drop_last();
        lemma_latest_of(init);
        assert forall|i: int| 0 <= i < init.len() implies init[i] == tags[i] by {}
        match latest_of(tags) {
            Some(v) => {
                match latest_of(init) {
                    Some(a) => {
                        let k = choose|i: int|
                            0 <= i < init.len() && tag_version(#[trigger] init[i]) == Some(a);
                        assert(tags[k] == init[k]);
                        if v == a {
                            assert(tag_version(tags[k]) == Some(v));
                        } else {
                            assert(tag_version(tags[tags.len() - 1]) == Some(v));
                        }
                    },
                    None => {
                        assert(tag_version(tags[tags.len() - 1]) == Some(v));
                    },
                }
                assert forall|i: int| 0 <= i < tags.len() implies (tag_version(
                    #[trigger] tags[i],
                ) matches Some(w) ==> version_le(w, v)) by {
                    if i < init.len() {
                        assert(init[i] == tags[i]);
                    }
                }
            },
            None => {
                assert forall|i: int| 0 <= i < tags.len() implies tag_version(
                    #[trigger] tags[i],
                ) is None by {
                    if i < init.len() {
                        assert(init[i] == tags[i]);
                    }
                }
            },
        }
        if forall|i: int| 0 <= i < tags.len() ==> tag_version(#[trigger] tags[i]) is None {
            assert(tag_version(tags[tags.len() - 1]) is None);
            assert forall|i: int| 0 <= i < init.len() implies tag_version(
                #[trigger] init[i],
            ) is None by {
                assert(init[i] == tags[i]);
            }
        }
    }
}

/// Reads the version that a tag name denotes.
pub fn version_of_tag(tag: &str) -> (r: Option<Version>)
    ensures
        r == tag_version(tag@),
{
    let parsed = if starts_with_v(tag) {
        Version::parse(after_first(tag))
    } else {
        Version::parse(tag)
    };
    match parsed {
        Ok(v) => Some(v),
        Err(_) => None,
    }
}

/// The latest version among the tag names of a repository. Names that denote
/// no version are passed over; where none is left, the error says so.
pub fn get_latest_version_tag(tags: &Vec<String>) -> (r: Result<Version, GitError>)
    ensures
        r is Ok <==> exists|i: int|
            0 <= i < tags.len() && tag_version(#[trigger] tags[i]@) is Some,
        r matches Ok(v) ==> {
            &&& latest_of(texts(tags@)) == Some(v)
            &&& exists|i: int| 0 <= i < tags.len() && tag_version(#[trigger] tags[i]@) == Some(v)
            &&& forall|i: int|
                0 <= i < tags.len() ==> (tag_version(#[trigger] tags[i]@) matches Some(w)
                    ==> version_le(w, v))
        },
        r matches Err(e) ==> e == GitError::NoVersionTags && latest_of(texts(tags@)) is None,
{
    let ghost all = texts(tags@);
    let mut best: Option<Version> = None;
    let mut i: usize = 0;
    while i < tags.len()
        invariant
            i <= tags.len(),
            all == texts(tags@),
            best == latest_of(all.take(i as int)),
        decreases tags.len() - i,
    {
        let found = version_of_tag(tags[i].as_str());
        proof {
            assert(all.take(i as int + 1).drop_last() =~= all.take(i as int));
            assert(all.take(i as int + 1).last() == tags[i as int]@);
        }
        best =
        match (best, found) {
            (Some(a), Some(b)) => {
                if precedes(&a, &b) {
                    Some(b)
                } else {
                    Some(a)
                }
            },
            (Some(a), None) => Some(a),
            (None, found) => found,
        };
        i = i + 1;
    }
    proof {
        assert(all.take(tags.len() as int) =~= all);
        lemma_latest_of(all);
        assert forall|k: int| 0 <= k < tags.len() implies all[k] == tags[k]@ by {}
        if let Some(v) = best {
            let k = choose|k: int| 0 <= k < all.len() && tag_version(#[trigger] all[k]) == Some(v);
            assert(tag_version(tags[k]@) == Some(v));
            assert forall|j: int| 0 <= j < tags.len() implies (tag_version(
                #[trigger] tags[j]@,
            ) matches Some(w) ==> version_le(w, v)) by {
                assert(all[j] == tags[j]@);
            }
        } else {
            assert forall|j: int| 0 <= j < tags.len() implies tag_version(
                #[trigger] tags[j]@,
            ) is None by {
                assert(all[j] == tags[j]@);
            }
        }
    }
    match best {
        Some(v) => Ok(v),
        None => Err(GitError::NoVersionTags),
    }
}

/// What stands before the owner in a web address of a repository.
pub open spec fn https_prefix() -> Seq<char> {
    "https://github.com/"@
}

/// What stands before the owner in a secure-shell address of a repository.
pub open spec fn ssh_prefix() -> Seq<char> {
    "git@github.com:"@
}

/// The ending that an address may carry after the repository's name.
pub open spec fn git_suffix() -> Seq<char> {
    ".git"@
}

/// The name of a repository: not empty, without slash or dot.
pub open spec fn is_repo_name(s: Seq<char>) -> bool {
    s.len() > 0 && forall|i: int| 0 <= i < s.len() ==> #[trigger] s[i] != '/' && s[i] != '.'
}

/// Owner and repository of a path `owner/repo` or `owner/repo.git`: the owner
/// is what stands before the first slash and is not empty, the repository is
/// the rest without the ending `.git` and is a repository's name. Any other
/// path has none.
pub open spec fn path_parts(path: Seq<char>) -> Option<(Seq<char>, Seq<char>)> {
    let i = position(path, '/');
    let rest = path.skip(i + 1);
    let repo = if git_suffix().is_suffix_of(rest) {
        rest.take(rest.len() - git_suffix().len())
    } else {
        rest
    };
    if 0 < i < path.len() && is_repo_name(repo) {
        Some((path.take(i), repo))
    } else {
        None
    }
}

/// Owner and repository of the address that begins at place `at` of a text
/// and runs to its end: one of the two prefixes, then a path.
pub open spec fn parts_at(url: Seq<char>, at: int) -> Option<(Seq<char>, Seq<char>)> {
    let address = url.skip(at);
    if https_prefix().is_prefix_of(address) {
        path_parts(address.skip(https_prefix().len() as int))
    } else if ssh_prefix().is_prefix_of(address) {
        path_parts(address.skip(ssh_prefix().len() as int))
    } else {
        None
    }
}

/// Owner and repository of the first address that begins at place `from` of
/// a text or later.
pub open spec fn parts_from(url: Seq<char>, from: int) -> Option<(Seq<char>, Seq<char>)>
    decreases url.len() - from,
{
    if from < 0 || from >= url.len() {
        None
    } else {
        match parts_at(url, from) {
            Some(found) => Some(found),
            None => parts_from(url, from + 1),
        }
    }
}

/// Owner and repository that a remote URL names: those of the first place
/// from which the text, to its end, is `https://github.com/owner/repo` or
/// `git@github.com:owner/repo`, with or without the ending `.git`.
pub open spec fn github_parts(url: Seq<char>) -> Option<(Seq<char>, Seq<char>)> {
    parts_from(url, 0)
}

/// Whether the characters of `prefix` stand in `text` from place `at` on.
fn starts_at(text: &Vec<char>, at: usize, prefix: &Vec<char>) -> (r: bool)
    requires
        at <= text.len(),
    ensures
        r == prefix@.is_prefix_of(text@.skip(at as int)),
{
    let n = prefix.len();
    if text.len() - at < n {
        return false;
    }
    let ghost rest = text@.skip(at as int);
    let mut k: usize = 0;
    while k < n
        invariant
            k <= n,
            n == prefix.len(),
            at + n <= text.len(),
            rest == text@.skip(at as int),
            forall|j: int| 0 <= j < k ==> prefix[j] == rest[j],
        decreases n - k,
    {
        if prefix[k] != text[at + k] {
            assert(rest.subrange(0, n as int)[k as int] != prefix[k as int]);
            return false;
        }
        k = k + 1;
    }
    assert(prefix@ =~= rest.subrange(0, n as int));
    true
}

/// Whether the characters of `text` from `from` up to `to` form the name of
/// a repository.
fn repo_name_in(text: &Vec<char>, from: usize, to: usize) -> (r: bool)
    requires
        from <= to <= text.len(),
    ensures
        r == is_repo_name(text@.subrange(from as int, to as int)),
{
    let ghost name = text@.subrange(from as int, to as int);
    if from == to {
        return false;
    }
    let mut k: usize = from;
    while k < to
        invariant
            from <= k <= to <= text.len(),
            name == text@.subrange(from as int, to as int),
            forall|j: int| 0 <= j < k - from ==> #[trigger] name[j] != '/' && name[j] != '.',
        decreases to - k,
    {
        if text[k] == '/' || text[k] == '.' {
            assert(name[k - from] == text[k as int]);
            return false;
        }
        k = k + 1;
    }
    true
}

/// Where owner and repository stand in the path that runs from place `start`
/// of a text to its end: the bounds of the owner, then those of the
/// repository.
fn path_in(text: &Vec<char>, start: usize) -> (r: Option<(usize, usize, usize, usize)>)
    requires
        start <= text.len(),
    ensures
        match path_parts(text@.skip(start as int)) {
            Some(parts) => r matches Some(b) && b.0 <= b.1 <= b.2 <= b.3 <= text.len()
                && text@.subrange(b.0 as int, b.1 as int) == parts.0 && text@.subrange(
                b.2 as int,
                b.3 as int,
            ) == parts.1,
            None => r is None,
        },
{
    let n = text.len();
    let ghost path = text@.skip(start as int);
    let mut slash: usize = start;
    while slash < n && text[slash] != '/'
        invariant
            start <= slash <= n,
            n == text.len(),
            path == text@.skip(start as int),
            forall|j: int| 0 <= j < slash - start ==> path[j] != '/',
        decreases n - slash,
    {
        slash = slash + 1;
    }
    proof {
        lemma_position_is(path, '/', slash - start);
    }
    if slash == start || slash == n {
        return None;
    }
    let from = slash + 1;
    let ghost rest = path.skip(slash - start + 1);
    assert(rest =~= text@.subrange(from as int, n as int));
    let suffixed = n - from >= 4 && text[n - 4] == '.' && text[n - 3] == 'g' && text[n - 2] == 'i'
        && text[n - 1] == 't';
    proof {
        reveal_strlit(".git");
        let ending = git_suffix();
        assert(ending.len() == 4 && ending[0] == '.' && ending[1] == 'g' && ending[2] == 'i'
            && ending[3] == 't');
        if rest.len() >= 4 {
            let tail = rest.subrange(rest.len() - 4, rest.len() as int);
            assert(tail[0] == text[n - 4] && tail[1] == text[n - 3] && tail[2] == text[n - 2]
                && tail[3] == text[n - 1]);
            if suffixed {
                assert(ending =~= tail);
            }
        }
        assert(suffixed == ending.is_suffix_of(rest));
    }
    let to = if suffixed {
        n - 4
    } else {
        n
    };
    proof {
        if suffixed {
            assert(rest.take(rest.len() - 4) =~= text@.subrange(from as int, to as int));
        }
        assert(path.take(slash - start) =~= text@.subrange(start as int, slash as int));
    }
    if repo_name_in(text, from, to) {
        Some((start, slash, from, to))
    } else {
        None
    }
}

/// Where owner and repository stand for the address that begins at place
/// `at` of a text.
fn address_in(text: &Vec<char>, at: usize, https: &Vec<char>, ssh: &Vec<char>) -> (r: Option<
    (usize, usize, usize, usize),
>)
    requires
        at <= text.len(),
        https@ == https_prefix(),
        ssh@ == ssh_prefix(),
    ensures
        match parts_at(text@, at as int) {
            Some(parts) => r matches Some(b) && b.0 <= b.1 <= b.2 <= b.3 <= text.len()
                && text@.subrange(b.0 as int, b.1 as int) == parts.0 && text@.subrange(
                b.2 as int,
                b.3 as int,
            ) == parts.1,
            None => r is None,
        },
{
    let ghost address = text@.skip(at as int);
    if starts_at(text, at, https) {
        assert(address.skip(https.len() as int) =~= text@.skip(at + https.len()));
        path_in(text, at + https.len())
    } else if starts_at(text, at, ssh) {
        assert(address.skip(ssh.len() as int) =~= text@.skip(at + ssh.len()));
        path_in(text, at + ssh.len())
    } else {
        None
    }
}

/// Reads owner and repository from a remote URL. The URL is recognised where
/// it ends in `https://github.com/owner/repo` or `git@github.com:owner/repo`,
/// with or without `.git` after it; the owner holds no slash, the repository
/// neither slash nor dot. Where several places fit, the first counts.
pub fn parse_github_url(url: &str) -> (r: Result<(String, String), GitError>)
    ensures
        match github_parts(url@) {
            Some(parts) => r matches Ok(names) && names.0@ == parts.0 && names.1@ == parts.1,
            None => r matches Err(e) && e == GitError::InvalidUrl,
        },
{
    let text = chars_of(url);
    let https = chars_of("https://github.com/");
    let ssh = chars_of("git@github.com:");
    let n = text.len();
    let mut at: usize = 0;
    while at < n
        invariant
            at <= n,
            n == text.len(),
            text@ == url@,
            https@ == https_prefix(),
            ssh@ == ssh_prefix(),
            github_parts(url@) == parts_from(url@, at as int),
        decreases n - at,
    {
        match address_in(&text, at, &https, &ssh) {
            Some((a, b, c, d)) => {
                let owner = owned(url.substring_char(a, b));
                let repo = owned(url.substring_char(c, d));
                return Ok((owner, repo));
            },
            None => {},
        }
        at = at + 1;
    }
    Err(GitError::InvalidUrl)
}

/// Owner and repository of the remote, from its URL where it has one.
pub fn get_repo_owner_name(url: Option<&str>) -> (r: Result<(String, String), GitError>)
    ensures
        match url {
            Some(text) => match github_parts(text@) {
                Some(parts) => r matches Ok(names) && names.0@ == parts.0 && names.1@ == parts.1,
                None => r matches Err(e) && e == GitError::InvalidUrl,
            },
            None => r matches Err(e) && e == GitError::NoRemoteUrl,
        },
{
    match url {
        Some(text) => parse_github_url(text),
        None => Err(GitError::NoRemoteUrl),
    }
}

} // verus!
