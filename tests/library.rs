use dfl::adopt::{Adopt, AdoptAction, AdoptError, Phase, Reply, Snapshot};
use dfl::paths::{file_name, join};
use dfl::reconcile::{entry_outcome, plan_entry, summarize, ConflictPolicy, EntryOutcome, LinkPlan};
use dfl::store::{is_metadata, list_entries, store_root, DirItem, ManagedEntry};
use dfl::vcs::{decide_push, occurs, PushError, PushKind, ToolCall};

fn item(name: &str, is_dir: bool) -> DirItem {
    DirItem { name: name.to_string(), is_dir }
}

fn entry(name: &str) -> ManagedEntry {
    ManagedEntry {
        name: name.to_string(),
        store_path: format!("/home/u/.dfl/{}", name),
        origin_path: format!("/home/u/{}", name),
    }
}

#[test]
fn join_adds_one_separator() {
    assert_eq!(join("/home/u", ".bashrc"), "/home/u/.bashrc");
    assert_eq!(join("/home/u/", ".bashrc"), "/home/u/.bashrc");
    assert_eq!(join("", "x"), "/x");
}

#[test]
fn file_name_takes_last_component() {
    assert_eq!(file_name("/home/u/.vimrc"), Some(".vimrc".to_string()));
    assert_eq!(file_name("notes.txt"), Some("notes.txt".to_string()));
    assert_eq!(file_name("/home/u/"), None);
    assert_eq!(file_name("/home/.."), None);
    assert_eq!(file_name("/home/."), None);
    assert_eq!(file_name(""), None);
}

#[test]
fn store_root_is_under_home() {
    assert_eq!(store_root("/home/u"), "/home/u/.dfl");
}

#[test]
fn metadata_name_is_recognised() {
    assert!(is_metadata(".git"));
    assert!(!is_metadata(".gitconfig"));
    assert!(!is_metadata("git"));
}

#[test]
fn fresh_store_lists_no_entries() {
    let items = vec![item(".git", true)];
    assert!(list_entries("/home/u/.dfl", "/home/u", &items).is_empty());
    assert!(list_entries("/home/u/.dfl", "/home/u", &Vec::new()).is_empty());
}

#[test]
fn listing_keeps_only_top_level_files() {
    let items = vec![
        item(".bashrc", false),
        item(".git", true),
        item(".config", true),
        item("plain_dir", true),
        item(".vimrc", false),
        item(".git", false),
    ];
    let r = list_entries("/home/u/.dfl", "/home/u", &items);
    assert_eq!(r.len(), 2);
    assert_eq!(r[0].name, ".bashrc");
    assert_eq!(r[0].store_path, "/home/u/.dfl/.bashrc");
    assert_eq!(r[0].origin_path, "/home/u/.bashrc");
    assert_eq!(r[1].name, ".vimrc");
}

#[test]
fn free_paths_are_linked_under_either_policy() {
    for policy in [ConflictPolicy::Skip, ConflictPolicy::Backup] {
        let mut outcomes = Vec::new();
        for name in ["A", "B", "C"] {
            let e = entry(name);
            let plan = plan_entry(policy, &e, false);
            match &plan {
                LinkPlan::Link { target, at } => {
                    assert_eq!(*target, format!("/home/u/.dfl/{}", name));
                    assert_eq!(*at, format!("/home/u/{}", name));
                }
                _ => panic!("expected a direct link"),
            }
            outcomes.push(entry_outcome(&plan, true, true));
        }
        let s = summarize(&outcomes);
        assert_eq!((s.linked, s.skipped, s.backed_up, s.failed), (3, 0, 0, 0));
    }
}

#[test]
fn backup_policy_moves_occupant_aside() {
    let plan = plan_entry(ConflictPolicy::Backup, &entry("A"), true);
    match &plan {
        LinkPlan::BackupThenLink { at, backup, target } => {
            assert_eq!(at, "/home/u/A");
            assert_eq!(backup, "/home/u/A.backup");
            assert_eq!(target, "/home/u/.dfl/A");
        }
        _ => panic!("expected a backup"),
    }
    assert_eq!(entry_outcome(&plan, true, true), EntryOutcome::BackedUpAndLinked);
    assert_eq!(entry_outcome(&plan, false, true), EntryOutcome::BackupFailed);
    assert_eq!(entry_outcome(&plan, true, false), EntryOutcome::LinkFailed);
}

#[test]
fn skip_policy_leaves_occupant() {
    let plan = plan_entry(ConflictPolicy::Skip, &entry("A"), true);
    match &plan {
        LinkPlan::Skip { at } => assert_eq!(at, "/home/u/A"),
        _ => panic!("expected a skip"),
    }
    assert_eq!(entry_outcome(&plan, false, false), EntryOutcome::Skipped);
    assert_eq!(ConflictPolicy::safe_default(), ConflictPolicy::Skip);
}

#[test]
fn failures_do_not_stop_the_count() {
    let outcomes = vec![
        EntryOutcome::LinkFailed,
        EntryOutcome::Linked,
        EntryOutcome::BackupFailed,
        EntryOutcome::Skipped,
        EntryOutcome::BackedUpAndLinked,
    ];
    let s = summarize(&outcomes);
    assert_eq!((s.linked, s.skipped, s.backed_up, s.failed), (1, 1, 1, 2));
}

fn begin(source: &str) -> Adopt {
    let (mut a, act) = Adopt::start("/home/u/.dfl", source);
    assert!(matches!(act, AdoptAction::CheckStore { ref root } if root == "/home/u/.dfl"));
    let act = a.step(Reply::Yes);
    assert!(matches!(act, AdoptAction::Resolve { ref path } if path == source));
    a
}

#[test]
fn adopt_moves_links_and_commits() {
    let mut a = begin("./.bashrc");
    let act = a.step(Reply::Resolved("/home/u/.bashrc".to_string()));
    assert!(matches!(act, AdoptAction::Probe { ref path } if path == "/home/u/.dfl/.bashrc"));
    let act = a.step(Reply::No);
    assert!(
        matches!(act, AdoptAction::Move { ref from, ref to } if from == "/home/u/.bashrc" && to == "/home/u/.dfl/.bashrc")
    );
    let act = a.step(Reply::Yes);
    assert!(
        matches!(act, AdoptAction::Link { ref target, ref at } if target == "/home/u/.dfl/.bashrc" && at == "/home/u/.bashrc")
    );
    let act = a.step(Reply::Yes);
    assert!(matches!(act, AdoptAction::Stage { ref dir } if dir == "/home/u/.dfl"));
    let act = a.step(Reply::Yes);
    assert!(
        matches!(act, AdoptAction::Commit { ref dir, ref message } if dir == "/home/u/.dfl" && message == "feat: Add .bashrc")
    );
    assert_eq!(a.outcome(), None);
    let act = a.step(Reply::Yes);
    assert!(matches!(act, AdoptAction::Finish));
    assert_eq!(a.phase(), Phase::Done);
    assert_eq!(a.outcome(), Some(Ok(Snapshot::Committed)));
    assert_eq!(a.name(), ".bashrc");
    assert!(matches!(a.step(Reply::No), AdoptAction::Finish));
    assert_eq!(a.outcome(), Some(Ok(Snapshot::Committed)));
}

#[test]
fn adopt_link_failure_moves_file_back() {
    let mut a = begin("/home/u/.vimrc");
    a.step(Reply::Resolved("/home/u/.vimrc".to_string()));
    a.step(Reply::No);
    a.step(Reply::Yes);
    let act = a.step(Reply::No);
    assert!(
        matches!(act, AdoptAction::Restore { ref from, ref to } if from == "/home/u/.dfl/.vimrc" && to == "/home/u/.vimrc")
    );
    assert!(matches!(a.step(Reply::Yes), AdoptAction::Finish));
    assert_eq!(a.outcome(), Some(Err(AdoptError::LinkCreationFailed { restored: true })));
}

#[test]
fn adopt_reports_failed_restore() {
    let mut a = begin("/home/u/.vimrc");
    a.step(Reply::Resolved("/home/u/.vimrc".to_string()));
    a.step(Reply::No);
    a.step(Reply::Yes);
    a.step(Reply::No);
    a.step(Reply::No);
    assert_eq!(a.outcome(), Some(Err(AdoptError::LinkCreationFailed { restored: false })));
}

#[test]
fn adopt_name_collision_moves_nothing() {
    let mut a = begin("/home/u/other/.profile");
    let act = a.step(Reply::Resolved("/home/u/other/.profile".to_string()));
    assert!(matches!(act, AdoptAction::Probe { ref path } if path == "/home/u/.dfl/.profile"));
    assert!(matches!(a.step(Reply::Yes), AdoptAction::Finish));
    assert_eq!(a.outcome(), Some(Err(AdoptError::NameCollision)));
}

#[test]
fn adopt_without_store_fails() {
    let (mut a, _) = Adopt::start("/home/u/.dfl", "x");
    assert!(matches!(a.step(Reply::No), AdoptAction::Finish));
    assert_eq!(a.outcome(), Some(Err(AdoptError::StoreNotInitialized)));
}

#[test]
fn adopt_invalid_source_fails() {
    let mut a = begin("missing");
    assert!(matches!(a.step(Reply::No), AdoptAction::Finish));
    assert_eq!(a.outcome(), Some(Err(AdoptError::InvalidSource)));
    let mut b = begin("/");
    assert!(matches!(b.step(Reply::Resolved("/".to_string())), AdoptAction::Finish));
    assert_eq!(b.outcome(), Some(Err(AdoptError::InvalidSource)));
}

#[test]
fn adopt_move_failure_stops() {
    let mut a = begin("f");
    a.step(Reply::Resolved("/tmp/f".to_string()));
    a.step(Reply::No);
    assert!(matches!(a.step(Reply::No), AdoptAction::Finish));
    assert_eq!(a.outcome(), Some(Err(AdoptError::MoveFailed)));
}

#[test]
fn adopt_snapshot_failure_keeps_link() {
    let mut a = begin("f");
    a.step(Reply::Resolved("/tmp/f".to_string()));
    a.step(Reply::No);
    a.step(Reply::Yes);
    a.step(Reply::Yes);
    assert!(matches!(a.step(Reply::No), AdoptAction::Finish));
    assert_eq!(a.outcome(), Some(Ok(Snapshot::StageFailed)));
    let mut b = begin("f");
    b.step(Reply::Resolved("/tmp/f".to_string()));
    b.step(Reply::No);
    b.step(Reply::Yes);
    b.step(Reply::Yes);
    b.step(Reply::Yes);
    b.step(Reply::No);
    assert_eq!(b.outcome(), Some(Ok(Snapshot::CommitFailed)));
}

#[test]
fn first_push_sets_upstream_then_plain() {
    assert_eq!(decide_push("origin\n", "## master\n"), Ok(PushKind::SetUpstream));
    assert_eq!(decide_push("origin\n", "## master...origin/master\n"), Ok(PushKind::Plain));
    assert_eq!(decide_push("", "## master\n"), Err(PushError::NoRemote));
    assert_eq!(decide_push("upstream\n", "## master...upstream/master\n"), Err(PushError::NoRemote));
}

#[test]
fn occurs_finds_substrings() {
    assert!(occurs("...", "## a...b"));
    assert!(!occurs("...", "## a..b"));
    assert!(occurs("", ""));
    assert!(!occurs("ab", "a"));
    assert!(occurs("ab", "xab"));
}

#[test]
fn tool_calls_have_their_arguments() {
    assert_eq!(ToolCall::Init.args(), vec!["init"]);
    assert_eq!(ToolCall::StageAll.args(), vec!["add", "."]);
    assert_eq!(ToolCall::Commit { message: "m".to_string() }.args(), vec!["commit", "-m", "m"]);
    assert_eq!(ToolCall::AddRemote { url: "u".to_string() }.args(), vec!["remote", "add", "origin", "u"]);
    assert_eq!(ToolCall::ListRemotes.args(), vec!["remote"]);
    assert_eq!(ToolCall::Status.args(), vec!["status", "-sb"]);
    assert_eq!(ToolCall::push(PushKind::Plain).args(), vec!["push"]);
    assert_eq!(
        ToolCall::push(PushKind::SetUpstream).args(),
        vec!["push", "--set-upstream", "origin", "master"]
    );
    assert_eq!(ToolCall::Pull.args(), vec!["pull"]);
}
