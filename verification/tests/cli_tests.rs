use release_tagger::cli::{Action, CmdError, Event, Lifecycle, Stage};
use release_tagger::tag::BumpType;

fn text(s: &str) -> String {
    s.to_string()
}

fn checked(requested: Option<&str>, release: bool) -> Lifecycle {
    let s = Lifecycle::new(requested.map(text), release);
    assert_eq!(s.action(), Action::ReadBranch);
    let s = s.step(Event::Branch(text("main")));
    assert_eq!(s.action(), Action::CheckClean);
    let s = s.step(Event::Clean(true));
    assert_eq!(s.action(), Action::CheckSync);
    s.step(Event::Synced(true))
}

fn confirming(tags: &[&str], bump: BumpType, release: bool) -> Lifecycle {
    let s = checked(None, release);
    assert_eq!(s.stage, Stage::ResolvingTag);
    assert_eq!(s.action(), Action::SelectBump);
    let s = s.step(Event::Bump(bump));
    assert_eq!(s.stage, Stage::ResolvingTag);
    assert_eq!(s.action(), Action::ListTags);
    let s = s.step(Event::Tags(tags.iter().map(|t| text(t)).collect()));
    assert_eq!(s.stage, Stage::Confirming);
    assert_eq!(s.action(), Action::Confirm);
    s
}

#[test]
fn scenario_first_major_release() {
    let s = confirming(&[], BumpType::Major, false);
    assert_eq!(s.tag, "v1.0.0");
    assert_eq!(s.prompt(), "Create tag 'v1.0.0' on branch 'main'? (y/N):");
    assert_eq!(s.notice(), None);
    let s = s.step(Event::Answer(text("y")));
    assert_eq!(s.action(), Action::CreateTag);
    assert_eq!(s.tag, "v1.0.0");
    let s = s.step(Event::Created);
    assert_eq!(s.action(), Action::PushTag);
    assert_eq!(s.notice(), None);
    let s = s.step(Event::Pushed);
    assert_eq!(s.stage, Stage::Done);
    assert_eq!(s.action(), Action::Exit);
    assert_eq!(s.notice(), Some(text("🚀 Creating and pushing tag 'v1.0.0'")));
    assert_eq!(s.failure, None);
    assert_eq!(s.exit_code(), 0);
}

#[test]
fn scenario_wrong_branch() {
    let s = Lifecycle::new(None, false);
    let s = s.step(Event::Branch(text("develop")));
    assert_eq!(s.stage, Stage::Aborted);
    assert_eq!(s.action(), Action::Exit);
    assert_eq!(s.failure, Some(CmdError::NotOnMain));
    assert_eq!(s.failure.as_ref().unwrap().message(), "Not on 'main' branch");
    assert_eq!(s.notice(), None);
    assert_eq!(s.exit_code(), 1);
}

#[test]
fn scenario_explicit_tag_without_prefix() {
    let s = checked(Some("1.2.3"), false);
    assert_eq!(s.stage, Stage::Aborted);
    assert_eq!(s.action(), Action::Exit);
    assert_eq!(s.failure, Some(CmdError::InvalidTag(text("1.2.3"))));
    assert_eq!(s.failure.as_ref().unwrap().message(), "Invalid tag name '1.2.3'");
    assert_eq!(s.exit_code(), 1);
}

#[test]
fn scenario_operator_declines() {
    let s = confirming(&["v1.2.3"], BumpType::Patch, true);
    assert_eq!(s.tag, "v1.2.4");
    let s = s.step(Event::Answer(text("n")));
    assert_eq!(s.stage, Stage::Aborted);
    assert_eq!(s.action(), Action::Exit);
    assert_eq!(s.failure, None);
    assert_eq!(s.notice(), Some(text("🚫 Tag creation cancelled")));
    assert_eq!(s.exit_code(), 0);
}

#[test]
fn scenario_tag_exists_already() {
    let s = checked(Some("v1.2.3"), false);
    assert_eq!(s.stage, Stage::Confirming);
    let s = s.step(Event::Answer(text("y")));
    assert_eq!(s.action(), Action::CreateTag);
    let report = "Tag 'v1.2.3' already exists at 0123456789abcdef0123456789abcdef01234567";
    let s = s.step(Event::Failed(text(report)));
    assert_eq!(s.stage, Stage::Aborted);
    assert_eq!(s.action(), Action::Exit);
    assert_eq!(s.failure, Some(CmdError::Collaborator(text(report))));
    assert_eq!(s.failure.as_ref().unwrap().message(), report);
    assert_eq!(s.notice(), None);
    assert_eq!(s.exit_code(), 1);
}

#[test]
fn explicit_tag_is_used_as_it_is() {
    let s = checked(Some("v2.0.0"), false);
    assert_eq!(s.stage, Stage::Confirming);
    assert_eq!(s.tag, "v2.0.0");
    assert_eq!(s.prompt(), "Create tag 'v2.0.0' on branch 'main'? (y/N):");
}

#[test]
fn dirty_tree_and_diverged_branch_abort() {
    let s = Lifecycle::new(None, false).step(Event::Branch(text("main")));
    let s = s.step(Event::Clean(false));
    assert_eq!(s.failure, Some(CmdError::DirtyTree));
    assert_eq!(s.failure.as_ref().unwrap().message(), "Working tree is not clean");
    assert_eq!(s.exit_code(), 1);

    let s = Lifecycle::new(None, false).step(Event::Branch(text("main")));
    let s = s.step(Event::Clean(true)).step(Event::Synced(false));
    assert_eq!(s.failure, Some(CmdError::OutOfSync));
    assert_eq!(s.failure.as_ref().unwrap().message(), "Local branch is behind remote");
    assert_eq!(s.exit_code(), 1);
}

#[test]
fn a_failed_fetch_is_an_error_not_a_divergence() {
    let s = Lifecycle::new(None, false).step(Event::Branch(text("main")));
    let s = s.step(Event::Clean(true)).step(Event::Failed(text("git fetch failed")));
    assert_eq!(s.stage, Stage::Aborted);
    assert_eq!(s.failure, Some(CmdError::Collaborator(text("git fetch failed"))));
}

#[test]
fn computed_tags() {
    let all = ["v1.2.3", "v1.10.0", "nightly", "v0.9.9", "1.10.1"];
    assert_eq!(confirming(&all, BumpType::Patch, false).tag, "v1.10.2");
    assert_eq!(confirming(&all, BumpType::Minor, false).tag, "v1.11.0");
    assert_eq!(confirming(&all, BumpType::Major, false).tag, "v2.0.0");
    assert_eq!(confirming(&["junk"], BumpType::Patch, false).tag, "v0.0.1");
    assert_eq!(confirming(&[], BumpType::Minor, false).tag, "v0.1.0");
}

#[test]
fn tags_that_cannot_be_listed_count_as_none() {
    let s = checked(None, false).step(Event::Bump(BumpType::Minor));
    let s = s.step(Event::Failed(text("no tags")));
    assert_eq!(s.stage, Stage::Confirming);
    assert_eq!(s.tag, "v0.1.0");
}

#[test]
fn a_bump_that_cannot_be_chosen_aborts() {
    let s = checked(None, false).step(Event::Failed(text("Operation was interrupted")));
    assert_eq!(s.stage, Stage::Aborted);
    assert_eq!(s.failure, Some(CmdError::Collaborator(text("Operation was interrupted"))));
    assert_eq!(s.exit_code(), 1);
}

#[test]
fn a_number_that_cannot_be_raised_aborts() {
    let s = checked(None, false).step(Event::Bump(BumpType::Patch));
    let s = s.step(Event::Tags(vec![text("v1.2.18446744073709551615")]));
    assert_eq!(s.stage, Stage::Aborted);
    assert_eq!(s.failure, Some(CmdError::VersionOverflow));
    assert_eq!(
        s.failure.as_ref().unwrap().message(),
        "Version number is too large to bump"
    );
    let s = checked(None, false).step(Event::Bump(BumpType::Minor));
    let s = s.step(Event::Tags(vec![text("v1.2.18446744073709551615")]));
    assert_eq!(s.stage, Stage::Confirming);
    assert_eq!(s.tag, "v1.3.0");
}

#[test]
fn an_answer_that_cannot_be_read_declines() {
    let s = confirming(&[], BumpType::Patch, false);
    let s = s.step(Event::Failed(text("stream closed")));
    assert_eq!(s.stage, Stage::Aborted);
    assert_eq!(s.failure, None);
    assert_eq!(s.exit_code(), 0);
    assert_eq!(s.notice(), Some(text("🚫 Tag creation cancelled")));
}

#[test]
fn only_a_yes_confirms() {
    for answer in ["", "yes", "n", "N", "no", "yy", "ok"] {
        let s = confirming(&[], BumpType::Patch, false).step(Event::Answer(text(answer)));
        assert_eq!(s.stage, Stage::Aborted, "{:?}", answer);
        assert_eq!(s.failure, None);
    }
    for answer in ["y", "Y", " y ", "Y\n"] {
        let s = confirming(&[], BumpType::Patch, false).step(Event::Answer(text(answer)));
        assert_eq!(s.stage, Stage::Creating, "{:?}", answer);
    }
}

#[test]
fn a_release_is_published_after_the_push() {
    let s = confirming(&["v0.1.0"], BumpType::Minor, true);
    let s = s.step(Event::Answer(text("y"))).step(Event::Created).step(Event::Pushed);
    assert_eq!(s.stage, Stage::Publishing);
    assert_eq!(s.action(), Action::Publish);
    assert_eq!(s.notice(), Some(text("🚀 Creating and pushing tag 'v0.2.0'")));
    let s = s.step(Event::Published);
    assert_eq!(s.stage, Stage::Done);
    assert_eq!(s.action(), Action::Exit);
    assert_eq!(s.notice(), Some(text("🏷️ Creating release for tag 'v0.2.0'")));
    assert_eq!(s.exit_code(), 0);
}

#[test]
fn failures_after_confirmation_abort_with_the_report() {
    let s = confirming(&[], BumpType::Patch, true).step(Event::Answer(text("y")));
    let s = s.step(Event::Created).step(Event::Failed(text("git push tag failed")));
    assert_eq!(s.stage, Stage::Aborted);
    assert_eq!(s.failure, Some(CmdError::Collaborator(text("git push tag failed"))));
    assert_eq!(s.exit_code(), 1);

    let s = confirming(&[], BumpType::Patch, true).step(Event::Answer(text("y")));
    let s = s.step(Event::Created).step(Event::Pushed);
    let s = s.step(Event::Failed(text("Invalid GitHub URL")));
    assert_eq!(s.stage, Stage::Aborted);
    assert_eq!(s.failure, Some(CmdError::Collaborator(text("Invalid GitHub URL"))));
    assert_eq!(s.exit_code(), 1);
}

#[test]
fn an_event_out_of_turn_aborts() {
    let s = Lifecycle::new(None, false).step(Event::Clean(true));
    assert_eq!(s.stage, Stage::Aborted);
    assert_eq!(s.failure, Some(CmdError::Unexpected));
    assert_eq!(s.failure.as_ref().unwrap().message(), "Unexpected event");
    let s = confirming(&[], BumpType::Patch, false).step(Event::Created);
    assert_eq!(s.failure, Some(CmdError::Unexpected));
    let s = checked(None, false).step(Event::Tags(vec![]));
    assert_eq!(s.failure, Some(CmdError::Unexpected));
}

#[test]
fn a_command_that_has_ended_stays_as_it_is() {
    let done = confirming(&[], BumpType::Patch, false)
        .step(Event::Answer(text("y")))
        .step(Event::Created)
        .step(Event::Pushed);
    assert_eq!(done.stage, Stage::Done);
    assert_eq!(done.clone().step(Event::Failed(text("late"))), done);
    assert_eq!(done.clone().step(Event::Branch(text("main"))), done);
    let aborted = Lifecycle::new(None, false).step(Event::Branch(text("develop")));
    assert_eq!(aborted.clone().step(Event::Branch(text("main"))), aborted);
    assert_eq!(aborted.clone().step(Event::Pushed), aborted);
}
