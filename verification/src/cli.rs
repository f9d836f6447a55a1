//! The lifecycle of one tagging command, as a state machine.
//!
//! The machine does no work on the repository itself. It says which action
//! is due, takes the event that reports how the action went, and moves on:
//! the branch, the working tree and the remote are checked in that order,
//! the tag is resolved and validated, the operator confirms, and the tag is
//! created, pushed and, where asked for, published. Validation needs nothing
//! from outside and happens in the step that resolves the tag.

use crate::git::{get_latest_version_tag, latest_of, texts};
use crate::tag::{
    affirms, bumped, can_bump, canonical, checked_bump, confirm_message, confirm_text,
    format_vtag, is_valid_tag, lemma_version_tag_is_valid, parse_confirm, valid_tag, BumpType,
};
use crate::text::{joined, owned, same_text};
use crate::version::{version_string, Version};
use vstd::prelude::*;
use vstd::string::StringExecFns;

verus! {

/// Where a command stands.
#[derive(Debug, Clone, Copy, PartialEq, Eq, Structural)]
pub enum Stage {
    CheckingBranch,
    CheckingClean,
    CheckingSync,
    ResolvingTag,
    Confirming,
    Creating,
    Pushing,
    Publishing,
    Done,
    Aborted,
}

/// What the driver is to do next.
#[derive(Debug, Clone, Copy, PartialEq, Eq, Structural)]
pub enum Action {
    /// Read the name of the current branch.
    ReadBranch,
    /// Find out whether the working tree is clean.
    CheckClean,
    /// Fetch from the remote and compare the branch with its remote branch.
    CheckSync,
    /// Let the operator choose the bump.
    SelectBump,
    /// List the names of the tags.
    ListTags,
    /// Put the question to the operator and read the answer.
    Confirm,
    /// Create the tag.
    CreateTag,
    /// Push the tag.
    PushTag,
    /// Publish a release for the tag.
    Publish,
    /// Leave: the command has ended.
    Exit,
}

/// Why a command was aborted.
#[derive(Debug, Clone, PartialEq, Eq)]
pub enum CmdError {
    /// The current branch is not `main`.
    NotOnMain,
    /// The working tree holds changes.
    DirtyTree,
    /// The branch differs from its remote branch.
    OutOfSync,
    /// The tag name is not valid.
    InvalidTag(String),
    /// The number to bump cannot be raised.
    VersionOverflow,
    /// The repository, the operator's terminal or the hosting service
    /// reported a failure.
    Collaborator(String),
    /// An event came that does not answer the action that was due.
    Unexpected,
}

/// What the driver reports of an action.
#[derive(Debug, Clone, PartialEq, Eq)]
pub enum Event {
    /// The name of the current branch.
    Branch(String),
    /// Whether the working tree is clean.
    Clean(bool),
    /// Whether the branch equals its remote branch, after a fetch.
    Synced(bool),
    /// The bump that the operator chose.
    Bump(BumpType),
    /// The names of the tags.
    Tags(Vec<String>),
    /// The operator's answer.
    Answer(String),
    /// The tag was created.
    Created,
    /// The tag was pushed.
    Pushed,
    /// The release was published.
    Published,
    /// The action failed, with the given report.
    Failed(String),
}

/// The state of a command.
#[derive(Debug, Clone, PartialEq, Eq)]
pub struct Lifecycle {
    /// Where the command stands.
    pub stage: Stage,
    /// The tag name that the caller asked for, if any.
    pub requested: Option<String>,
    /// Whether a release is to be published.
    pub release: bool,
    /// The current branch, once read.
    pub branch: String,
    /// The bump that the operator chose, once chosen.
    pub bump: Option<BumpType>,
    /// The tag, once resolved.
    pub tag: String,
    /// Why the command was aborted; none where it was not, or where the
    /// operator declined.
    pub failure: Option<CmdError>,
}

/// A `CmdError` over texts.
pub enum CmdErrorView {
    NotOnMain,
    DirtyTree,
    OutOfSync,
    InvalidTag(Seq<char>),
    VersionOverflow,
    Collaborator(Seq<char>),
    Unexpected,
}

/// An `Event` over texts.
pub enum EventView {
    Branch(Seq<char>),
    Clean(bool),
    Synced(bool),
    Bump(BumpType),
    Tags(Seq<Seq<char>>),
    Answer(Seq<char>),
    Created,
    Pushed,
    Published,
    Failed(Seq<char>),
}

/// A `Lifecycle` over texts.
pub struct LifecycleView {
    pub stage: Stage,
    pub requested: Option<Seq<char>>,
    pub release: bool,
    pub branch: Seq<char>,
    pub bump: Option<BumpType>,
    pub tag: Seq<char>,
    pub failure: Option<CmdErrorView>,
}

impl View for CmdError {
    type V = CmdErrorView;

    open spec fn view(&self) -> CmdErrorView {
        match self {
            CmdError::NotOnMain => CmdErrorView::NotOnMain,
            CmdError::DirtyTree => CmdErrorView::DirtyTree,
            CmdError::OutOfSync => CmdErrorView::OutOfSync,
            CmdError::InvalidTag(tag) => CmdErrorView::InvalidTag(tag@),
            CmdError::VersionOverflow => CmdErrorView::VersionOverflow,
            CmdError::Collaborator(report) => CmdErrorView::Collaborator(report@),
            CmdError::Unexpected => CmdErrorView::Unexpected,
        }
    }
}

impl View for Event {
    type V = EventView;

    open spec fn view(&self) -> EventView {
        match self {
            Event::Branch(name) => EventView::Branch(name@),
            Event::Clean(clean) => EventView::Clean(*clean),
            Event::Synced(synced) => EventView::Synced(*synced),
            Event::Bump(bump) => EventView::Bump(*bump),
            Event::Tags(tags) => EventView::Tags(texts(tags@)),
            Event::Answer(answer) => EventView::Answer(answer@),
            Event::Created => EventView::Created,
            Event::Pushed => EventView::Pushed,
            Event::Published => EventView::Published,
            Event::Failed(report) => EventView::Failed(report@),
        }
    }
}

impl View for Lifecycle {
    type V = LifecycleView;

    open spec fn view(&self) -> LifecycleView {
        LifecycleView {
            stage: self.stage,
            requested: match self.requested {
                Some(tag) => Some(tag@),
                None => None,
            },
            release: self.release,
            branch: self.branch@,
            bump: self.bump,
            tag: self.tag@,
            failure: match self.failure {
                Some(e) => Some(e@),
                None => None,
            },
        }
    }
}

/// The line that reports an error.
pub open spec fn cmd_error_text(e: CmdErrorView) -> Seq<char> {
    match e {
        CmdErrorView::NotOnMain => "Not on 'main' branch"@,
        CmdErrorView::DirtyTree => "Working tree is not clean"@,
        CmdErrorView::OutOfSync => "Local branch is behind remote"@,
        CmdErrorView::InvalidTag(tag) => "Invalid tag name '"@ + tag + "'"@,
        CmdErrorView::VersionOverflow => "Version number is too large to bump"@,
        CmdErrorView::Collaborator(report) => report,
        CmdErrorView::Unexpected => "Unexpected event"@,
    }
}

impl CmdError {
    /// The line that reports the error. A collaborator's report is passed on
    /// unchanged.
    pub fn message(&self) -> (r: String)
        ensures
            r@ == cmd_error_text(self@),
    {
        match self {
            CmdError::NotOnMain => owned("Not on 'main' branch"),
            CmdError::DirtyTree => owned("Working tree is not clean"),
            CmdError::OutOfSync => owned("Local branch is behind remote"),
            CmdError::InvalidTag(tag) => {
                let mut r = joined("Invalid tag name '", tag.as_str());
                r.append("'");
                r
            },
            CmdError::VersionOverflow => owned("Version number is too large to bump"),
            CmdError::Collaborator(report) => owned(report.as_str()),
            CmdError::Unexpected => owned("Unexpected event"),
        }
    }
}

/// The state in which a command begins.
pub open spec fn initial(requested: Option<Seq<char>>, release: bool) -> LifecycleView {
    LifecycleView {
        stage: Stage::CheckingBranch,
        requested,
        release,
        branch: Seq::empty(),
        bump: None,
        tag: Seq::empty(),
        failure: None,
    }
}

/// The state after an abort with an error.
pub open spec fn aborted(s: LifecycleView, why: CmdErrorView) -> LifecycleView {
    LifecycleView { stage: Stage::Aborted, failure: Some(why), ..s }
}

/// The state after the operator declined: aborted, without an error.
pub open spec fn cancelled(s: LifecycleView) -> LifecycleView {
    LifecycleView { stage: Stage::Aborted, failure: None, ..s }
}

/// The state at a given stage, all else kept.
pub open spec fn at_stage(s: LifecycleView, stage: Stage) -> LifecycleView {
    LifecycleView { stage, ..s }
}

/// Validation of a resolved tag: a valid tag goes on to confirmation, any
/// other aborts the command.
pub open spec fn validated(s: LifecycleView, tag: Seq<char>) -> LifecycleView {
    if valid_tag(tag) {
        LifecycleView { stage: Stage::Confirming, tag, ..s }
    } else {
        aborted(s, CmdErrorView::InvalidTag(tag))
    }
}

/// The version that the bump starts from: the latest among the tag names,
/// 0.0.0 where there is none.
pub open spec fn base_version(tags: Seq<Seq<char>>) -> Version {
    match latest_of(tags) {
        Some(v) => v,
        None => Version { major: 0, minor: 0, patch: 0 },
    }
}

/// The tag that is computed from the tag names and the bump: the canonical
/// form of the bumped base version.
pub open spec fn computed_tag(tags: Seq<Seq<char>>, bump: BumpType) -> Seq<char> {
    canonical(version_string(bumped(base_version(tags), bump)))
}

/// Resolution of a computed tag, followed by its validation.
pub open spec fn resolved(s: LifecycleView, bump: BumpType, tags: Seq<Seq<char>>) -> LifecycleView {
    if can_bump(base_version(tags), bump) {
        validated(s, computed_tag(tags, bump))
    } else {
        aborted(s, CmdErrorView::VersionOverflow)
    }
}

/// The state after an event that reports a failure or does not answer the
/// action that was due.
pub open spec fn failed(s: LifecycleView, e: EventView) -> LifecycleView {
    match e {
        EventView::Failed(report) => aborted(s, CmdErrorView::Collaborator(report)),
        _ => aborted(s, CmdErrorView::Unexpected),
    }
}

/// The state that follows a state on an event.
pub open spec fn transition(s: LifecycleView, e: EventView) -> LifecycleView {
    match s.stage {
        Stage::CheckingBranch => match e {
            EventView::Branch(name) => if name == "main"@ {
                LifecycleView { stage: Stage::CheckingClean, branch: name, ..s }
            } else {
                aborted(s, CmdErrorView::NotOnMain)
            },
            _ => failed(s, e),
        },
        Stage::CheckingClean => match e {
            EventView::Clean(clean) => if clean {
                at_stage(s, Stage::CheckingSync)
            } else {
                aborted(s, CmdErrorView::DirtyTree)
            },
            _ => failed(s, e),
        },
        Stage::CheckingSync => match e {
            EventView::Synced(synced) => if !synced {
                aborted(s, CmdErrorView::OutOfSync)
            } else {
                match s.requested {
                    Some(tag) => validated(s, tag),
                    None => LifecycleView { stage: Stage::ResolvingTag, bump: None, ..s },
                }
            },
            _ => failed(s, e),
        },
        Stage::ResolvingTag => match s.bump {
            None => match e {
                EventView::Bump(bump) => LifecycleView { bump: Some(bump), ..s },
                _ => failed(s, e),
            },
            Some(bump) => match e {
                EventView::Tags(tags) => resolved(s, bump, tags),
                EventView::Failed(_) => resolved(s, bump, Seq::empty()),
                _ => failed(s, e),
            },
        },
        Stage::Confirming => match e {
            EventView::Answer(answer) => if affirms(answer) {
                at_stage(s, Stage::Creating)
            } else {
                cancelled(s)
            },
            EventView::Failed(_) => cancelled(s),
            _ => failed(s, e),
        },
        Stage::Creating => match e {
            EventView::Created => at_stage(s, Stage::Pushing),
            _ => failed(s, e),
        },
        Stage::Pushing => match e {
            EventView::Pushed => if s.release {
                at_stage(s, Stage::Publishing)
            } else {
                at_stage(s, Stage::Done)
            },
            _ => failed(s, e),
        },
        Stage::Publishing => match e {
            EventView::Published => at_stage(s, Stage::Done),
            _ => failed(s, e),
        },
        Stage::Done => s,
        Stage::Aborted => s,
    }
}

/// The action that is due in a state.
pub open spec fn due(s: LifecycleView) -> Action {
    match s.stage {
        Stage::CheckingBranch => Action::ReadBranch,
        Stage::CheckingClean => Action::CheckClean,
        Stage::CheckingSync => Action::CheckSync,
        Stage::ResolvingTag => if s.bump is None {
            Action::SelectBump
        } else {
            Action::ListTags
        },
        Stage::Confirming => Action::Confirm,
        Stage::Creating => Action::CreateTag,
        Stage::Pushing => Action::PushTag,
        Stage::Publishing => Action::Publish,
        Stage::Done => Action::Exit,
        Stage::Aborted => Action::Exit,
    }
}

/// The line that tells the operator that the tag was created and pushed.
pub open spec fn pushed_text(tag: Seq<char>) -> Seq<char> {
    "🚀 Creating and pushing tag '"@ + tag + "'"@
}

/// The line that tells the operator that the release was published.
pub open spec fn released_text(tag: Seq<char>) -> Seq<char> {
    "🏷️ Creating release for tag '"@ + tag + "'"@
}

/// The line that tells the operator that no tag was created.
pub open spec fn cancelled_text() -> Seq<char> {
    "🚫 Tag creation cancelled"@
}

/// What the operator is told on arrival in a state, if anything: that the
/// tag was pushed, that the release was published, or that the command was
/// cancelled. An error is not told here: it is the command's result.
pub open spec fn notice_text(s: LifecycleView) -> Option<Seq<char>> {
    match s.stage {
        Stage::Publishing => Some(pushed_text(s.tag)),
        Stage::Done => if s.release {
            Some(released_text(s.tag))
        } else {
            Some(pushed_text(s.tag))
        },
        Stage::Aborted => if s.failure is None {
            Some(cancelled_text())
        } else {
            None
        },
        _ => None,
    }
}

/// The exit code of a command that has ended: 1 where it was aborted with an
/// error, 0 where it succeeded or the operator declined.
pub open spec fn exit_status(s: LifecycleView) -> u8 {
    if s.failure is Some {
        1
    } else {
        0
    }
}

/// What holds of every state that a command reaches: past the first check
/// the branch is `main`; from confirmation on the tag is valid; a tag is
/// computed only where none was asked for; a release is published only
/// where one was asked for; and an error stands only in an aborted command.
pub open spec fn consistent(s: LifecycleView) -> bool {
    &&& s.stage != Stage::CheckingBranch && s.stage != Stage::Aborted ==> s.branch == "main"@
    &&& s.stage == Stage::Confirming || s.stage == Stage::Creating || s.stage == Stage::Pushing
        || s.stage == Stage::Publishing || s.stage == Stage::Done ==> valid_tag(s.tag)
    &&& s.stage == Stage::ResolvingTag ==> s.requested is None
    &&& s.stage == Stage::Publishing ==> s.release
    &&& s.failure is Some ==> s.stage == Stage::Aborted
}

/// A command begins in a consistent state.
pub proof fn lemma_initial_is_consistent(requested: Option<Seq<char>>, release: bool)
    ensures
        consistent(initial(requested, release)),
{
}

/// Every step leads from a consistent state to a consistent state. So a tag
/// that is created, pushed or published is a valid tag, on the branch
/// `main`.
pub proof fn lemma_transition_is_consistent(s: LifecycleView, e: EventView)
    requires
        consistent(s),
    ensures
        consistent(transition(s, e)),
{
}

/// A command that has ended stays as it is, whatever event comes.
pub proof fn lemma_ended_stays(s: LifecycleView, e: EventView)
    requires
        s.stage == Stage::Done || s.stage == Stage::Aborted,
    ensures
        transition(s, e) == s,
        due(s) == Action::Exit,
{
}

/// No step is skipped and none is taken twice: a step leaves the stage as it
/// is only while the tag is being resolved or when the command has ended;
/// else it leads to the next stage, or past the stages that need nothing
/// from outside, or to the abort.
pub proof fn lemma_stages_in_order(s: LifecycleView, e: EventView)
    ensures
        ({
            let next = transition(s, e).stage;
            next == Stage::Aborted || match s.stage {
                Stage::CheckingBranch => next == Stage::CheckingClean,
                Stage::CheckingClean => next == Stage::CheckingSync,
                Stage::CheckingSync => next == Stage::ResolvingTag || next == Stage::Confirming,
                Stage::ResolvingTag => next == Stage::ResolvingTag || next == Stage::Confirming,
                Stage::Confirming => next == Stage::Creating,
                Stage::Creating => next == Stage::Pushing,
                Stage::Pushing => next == if s.release {
                    Stage::Publishing
                } else {
                    Stage::Done
                },
                Stage::Publishing => next == Stage::Done,
                Stage::Done => next == Stage::Done,
                Stage::Aborted => true,
            }
        }),
{
}

/// A computed tag always passes validation: once the operator has chosen
/// the bump, the tag names lead to the confirmation of the computed tag,
/// unless the number to bump cannot be raised.
pub proof fn lemma_computed_tag_is_confirmed(s: LifecycleView, bump: BumpType, tags: Seq<Seq<char>>)
    requires
        can_bump(base_version(tags), bump),
    ensures
        resolved(s, bump, tags).stage == Stage::Confirming,
        resolved(s, bump, tags).tag == seq!['v'] + version_string(
            bumped(base_version(tags), bump),
        ),
{
    lemma_version_tag_is_valid(bumped(base_version(tags), bump));
}

/// The operator's refusal is no error: an answer that is not a yes, and an
/// answer that cannot be read, end the command with exit code 0.
pub proof fn lemma_declined_is_no_error(s: LifecycleView, e: EventView)
    requires
        consistent(s),
        s.stage == Stage::Confirming,
        e matches EventView::Answer(answer) ==> !affirms(answer),
        e is Answer || e is Failed,
    ensures
        transition(s, e).stage == Stage::Aborted,
        exit_status(transition(s, e)) == 0,
        notice_text(transition(s, e)) == Some(cancelled_text()),
{
}

impl Lifecycle {
    /// A command at its beginning, for the tag name that the caller asked
    /// for, if any, and with or without a release.
    pub fn new(requested: Option<String>, release: bool) -> (r: Lifecycle)
        ensures
            r@ == initial(
                match requested {
                    Some(tag) => Some(tag@),
                    None => None,
                },
                release,
            ),
    {
        Lifecycle {
            stage: Stage::CheckingBranch,
            requested,
            release,
            branch: String::new(),
            bump: None,
            tag: String::new(),
            failure: None,
        }
    }

    /// The action that is due.
    pub fn action(&self) -> (r: Action)
        ensures
            r == due(self@),
    {
        match self.stage {
            Stage::CheckingBranch => Action::ReadBranch,
            Stage::CheckingClean => Action::CheckClean,
            Stage::CheckingSync => Action::CheckSync,
            Stage::ResolvingTag => match self.bump {
                None => Action::SelectBump,
                Some(_) => Action::ListTags,
            },
            Stage::Confirming => Action::Confirm,
            Stage::Creating => Action::CreateTag,
            Stage::Pushing => Action::PushTag,
            Stage::Publishing => Action::Publish,
            Stage::Done => Action::Exit,
            Stage::Aborted => Action::Exit,
        }
    }

    /// The question to put to the operator: it names the tag and the branch.
    pub fn prompt(&self) -> (r: String)
        ensures
            r@ == confirm_text(self@.tag, self@.branch),
    {
        confirm_message(self.tag.as_str(), self.branch.as_str())
    }

    /// What to tell the operator on arrival in this state, if anything.
    pub fn notice(&self) -> (r: Option<String>)
        ensures
            match notice_text(self@) {
                Some(line) => r matches Some(told) && told@ == line,
                None => r is None,
            },
    {
        match self.stage {
            Stage::Publishing => Some(self.pushed_notice()),
            Stage::Done => if self.release {
                let mut line = joined("🏷️ Creating release for tag '", self.tag.as_str());
                line.append("'");
                Some(line)
            } else {
                Some(self.pushed_notice())
            },
            Stage::Aborted => match self.failure {
                None => Some(owned("🚫 Tag creation cancelled")),
                Some(_) => None,
            },
            _ => None,
        }
    }

    fn pushed_notice(&self) -> (r: String)
        ensures
            r@ == pushed_text(self@.tag),
    {
        let mut line = joined("🚀 Creating and pushing tag '", self.tag.as_str());
        line.append("'");
        line
    }

    /// The exit code of the command, once it has ended.
    pub fn exit_code(&self) -> (r: u8)
        ensures
            r == exit_status(self@),
    {
        match self.failure {
            Some(_) => 1,
            None => 0,
        }
    }

    fn abort(self, why: CmdError) -> (r: Lifecycle)
        ensures
            r@ == aborted(self@, why@),
    {
        Lifecycle { stage: Stage::Aborted, failure: Some(why), ..self }
    }

    fn cancel(self) -> (r: Lifecycle)
        ensures
            r@ == cancelled(self@),
    {
        Lifecycle { stage: Stage::Aborted, failure: None, ..self }
    }

    fn go(self, stage: Stage) -> (r: Lifecycle)
        ensures
            r@ == at_stage(self@, stage),
    {
        Lifecycle { stage, ..self }
    }

    fn fail(self, event: Event) -> (r: Lifecycle)
        ensures
            r@ == failed(self@, event@),
    {
        match event {
            Event::Failed(report) => self.abort(CmdError::Collaborator(report)),
            _ => self.abort(CmdError::Unexpected),
        }
    }

    fn validate(self, tag: String) -> (r: Lifecycle)
        ensures
            r@ == validated(self@, tag@),
    {
        if is_valid_tag(tag.as_str()) {
            Lifecycle { stage: Stage::Confirming, tag, ..self }
        } else {
            self.abort(CmdError::InvalidTag(tag))
        }
    }

    fn resolve(self, bump: BumpType, tags: &Vec<String>) -> (r: Lifecycle)
        ensures
            r@ == resolved(self@, bump, texts(tags@)),
    {
        let base = match get_latest_version_tag(tags) {
            Ok(v) => v,
            Err(_) => Version::new(0, 0, 0),
        };
        match checked_bump(&base, bump) {
            Some(next) => {
                let tag = format_vtag(next.to_string().as_str());
                self.validate(tag)
            },
            None => self.abort(CmdError::VersionOverflow),
        }
    }

    /// Takes the event that reports the action that was due, and moves on.
    ///
    /// A check that fails aborts the command with its error; so does a
    /// failure that a collaborator reports, and an event that does not
    /// answer the action. Two failures do not: where the tags cannot be
    /// listed there are none, and where the operator cannot be asked the
    /// answer is no. An answer that is not a yes aborts without an error.
    /// A command that has ended stays as it is.
    pub fn step(self, event: Event) -> (r: Lifecycle)
        ensures
            r@ == transition(self@, event@),
    {
        match self.stage {
            Stage::CheckingBranch => match event {
                Event::Branch(name) => if same_text(name.as_str(), "main") {
                    Lifecycle { stage: Stage::CheckingClean, branch: name, ..self }
                } else {
                    self.abort(CmdError::NotOnMain)
                },
                other => self.fail(other),
            },
            Stage::CheckingClean => match event {
                Event::Clean(clean) => if clean {
                    self.go(Stage::CheckingSync)
                } else {
                    self.abort(CmdError::DirtyTree)
                },
                other => self.fail(other),
            },
            Stage::CheckingSync => match event {
                Event::Synced(synced) => if !synced {
                    self.abort(CmdError::OutOfSync)
                } else {
                    match self.requested.clone() {
                        Some(tag) => self.validate(tag),
                        None => Lifecycle { stage: Stage::ResolvingTag, bump: None, ..self },
                    }
                },
                other => self.fail(other),
            },
            Stage::ResolvingTag => match self.bump {
                None => match event {
                    Event::Bump(bump) => Lifecycle { bump: Some(bump), ..self },
                    other => self.fail(other),
                },
                Some(bump) => match event {
                    Event::Tags(tags) => self.resolve(bump, &tags),
                    Event::Failed(_) => {
                        let none: Vec<String> = Vec::new();
                        assert(texts(none@) =~= Seq::<Seq<char>>::empty());
                        self.resolve(bump, &none)
                    },
                    other => self.fail(other),
                },
            },
            Stage::Confirming => match event {
                Event::Answer(answer) => if parse_confirm(answer.as_str()) {
                    self.go(Stage::Creating)
                } else {
                    self.cancel()
                },
                Event::Failed(_) => self.cancel(),
                other => self.fail(other),
            },
            Stage::Creating => match event {
                Event::Created => self.go(Stage::Pushing),
                other => self.fail(other),
            },
            Stage::Pushing => match event {
                Event::Pushed => if self.release {
                    self.go(Stage::Publishing)
                } else {
                    self.go(Stage::Done)
                },
                other => self.fail(other),
            },
            Stage::Publishing => match event {
                Event::Published => self.go(Stage::Done),
                other => self.fail(other),
            },
            Stage::Done => self,
            Stage::Aborted => self,
        }
    }
}

} // verus!
