use vstd::prelude::*;
use vstd::string::*;
use crate::fsmodel::{FsState, Node, linked, renamed};
use crate::paths::{join_path, lemma_join_injective};
use crate::store::{EntryView, ManagedEntry, entry_for};

verus! {

/// What to do when the home-directory path of an entry is already occupied.
#[derive(Clone, Copy, PartialEq, Eq, Structural, Debug)]
pub enum ConflictPolicy {
    /// Leave the occupant untouched and report the entry as skipped.
    Skip,
    /// Rename the occupant to `<path>.backup`, then link.
    Backup,
}

impl ConflictPolicy {
    /// The policy used unless the caller picks one: `Skip`, which never
    /// touches a file that is not a link of the store.
    pub fn safe_default() -> (r: ConflictPolicy)
        ensures
            r == ConflictPolicy::Skip,
    {
        ConflictPolicy::Skip
    }
}

/// The filesystem work decided for one entry.
pub enum LinkPlan {
    Link { target: String, at: String },
    BackupThenLink { at: String, backup: String, target: String },
    Skip { at: String },
}

/// What a `LinkPlan` stands for in specifications.
pub enum PlanView {
    Link { target: Seq<char>, at: Seq<char> },
    BackupThenLink { at: Seq<char>, backup: Seq<char>, target: Seq<char> },
    Skip { at: Seq<char> },
}

impl View for LinkPlan {
    type V = PlanView;

    open spec fn view(&self) -> PlanView {
        match self {
            LinkPlan::Link { target, at } => PlanView::Link { target: target@, at: at@ },
            LinkPlan::BackupThenLink { at, backup, target } => PlanView::BackupThenLink {
                at: at@,
                backup: backup@,
                target: target@,
            },
            LinkPlan::Skip { at } => PlanView::Skip { at: at@ },
        }
    }
}

/// How one entry of a bulk reconcile ended.
#[derive(Clone, Copy, PartialEq, Eq, Structural, Debug)]
pub enum EntryOutcome {
    Linked,
    Skipped,
    BackedUpAndLinked,
    BackupFailed,
    LinkFailed,
}

pub open spec fn backup_suffix() -> Seq<char> {
    seq!['.', 'b', 'a', 'c', 'k', 'u', 'p']
}

/// Where the occupant of `origin` is moved under the backup policy.
pub open spec fn backup_path_of(origin: Seq<char>) -> Seq<char> {
    origin + backup_suffix()
}

/// The plan for entry `e` when its home-directory path is `occupied` or not.
pub open spec fn plan_for(policy: ConflictPolicy, e: EntryView, occupied: bool) -> PlanView {
    if !occupied {
        PlanView::Link { target: e.store_path, at: e.origin_path }
    } else {
        match policy {
            ConflictPolicy::Skip => PlanView::Skip { at: e.origin_path },
            ConflictPolicy::Backup => PlanView::BackupThenLink {
                at: e.origin_path,
                backup: backup_path_of(e.origin_path),
                target: e.store_path,
            },
        }
    }
}

/// The outcome of a plan, given whether its rename and its link succeeded
/// (a link is not attempted once the rename before it has failed).
pub open spec fn outcome_for(plan: PlanView, backup_ok: bool, link_ok: bool) -> EntryOutcome {
    match plan {
        PlanView::Link { .. } => if link_ok {
            EntryOutcome::Linked
        } else {
            EntryOutcome::LinkFailed
        },
        PlanView::BackupThenLink { .. } => if !backup_ok {
            EntryOutcome::BackupFailed
        } else if link_ok {
            EntryOutcome::BackedUpAndLinked
        } else {
            EntryOutcome::LinkFailed
        },
        PlanView::Skip { .. } => EntryOutcome::Skipped,
    }
}

/// The filesystem after a plan is carried out.
pub open spec fn apply_plan(fs: FsState, plan: PlanView) -> FsState {
    match plan {
        PlanView::Link { target, at } => linked(fs, target, at),
        PlanView::BackupThenLink { at, backup, target } => linked(renamed(fs, at, backup), target, at),
        PlanView::Skip { .. } => fs,
    }
}

/// The filesystem after reconciling `entries` one after another, each
/// planned against the filesystem its predecessors left.
pub open spec fn reconcile_model(fs: FsState, policy: ConflictPolicy, entries: Seq<EntryView>) -> FsState
    decreases entries.len(),
{
    if entries.len() == 0 {
        fs
    } else {
        let before = reconcile_model(fs, policy, entries.drop_last());
        let e = entries.last();
        apply_plan(before, plan_for(policy, e, before.contains_key(e.origin_path)))
    }
}

/// Decides the filesystem work for `entry`: a direct link where its
/// home-directory path is free, else what `policy` says.
pub fn plan_entry(policy: ConflictPolicy, entry: &ManagedEntry, occupied: bool) -> (r: LinkPlan)
    ensures
        r@ == plan_for(policy, entry@, occupied),
{
    if !occupied {
        LinkPlan::Link { target: entry.store_path.clone(), at: entry.origin_path.clone() }
    } else {
        match policy {
            ConflictPolicy::Skip => LinkPlan::Skip { at: entry.origin_path.clone() },
            ConflictPolicy::Backup => {
                let suffix = ".backup";
                proof {
                    reveal_strlit(".backup");
                    assert(suffix@ =~= backup_suffix());
                }
                let mut backup = entry.origin_path.clone();
                backup.append(suffix);
                LinkPlan::BackupThenLink {
                    at: entry.origin_path.clone(),
                    backup,
                    target: entry.store_path.clone(),
                }
            },
        }
    }
}

/// Reports how a plan ended, given whether its rename and its link
/// succeeded.
pub fn entry_outcome(plan: &LinkPlan, backup_ok: bool, link_ok: bool) -> (r: EntryOutcome)
    ensures
        r == outcome_for(plan@, backup_ok, link_ok),
{
    match plan {
        LinkPlan::Link { .. } => if link_ok {
            EntryOutcome::Linked
        } else {
            EntryOutcome::LinkFailed
        },
        LinkPlan::BackupThenLink { .. } => if !backup_ok {
            EntryOutcome::BackupFailed
        } else if link_ok {
            EntryOutcome::BackedUpAndLinked
        } else {
            EntryOutcome::LinkFailed
        },
        LinkPlan::Skip { .. } => EntryOutcome::Skipped,
    }
}

/// How many entries of a bulk reconcile ended each way.
#[derive(Clone, Copy, PartialEq, Eq, Structural, Debug)]
pub struct Summary {
    pub linked: usize,
    pub skipped: usize,
    pub backed_up: usize,
    pub failed: usize,
}

/// The number of outcomes in `os` that satisfy `f`.
pub open spec fn count_where(os: Seq<EntryOutcome>, f: spec_fn(EntryOutcome) -> bool) -> nat
    decreases os.len(),
{
    if os.len() == 0 {
        0
    } else {
        count_where(os.drop_last(), f) + if f(os.last()) {
            1nat
        } else {
            0nat
        }
    }
}

pub open spec fn is_failure(o: EntryOutcome) -> bool {
    o is BackupFailed || o is LinkFailed
}

/// Counts the outcomes of a bulk reconcile by kind; the two kinds of
/// failure are counted together.
pub fn summarize(outcomes: &Vec<EntryOutcome>) -> (r: Summary)
    ensures
        r.linked == count_where(outcomes@, |o: EntryOutcome| o is Linked),
        r.skipped == count_where(outcomes@, |o: EntryOutcome| o is Skipped),
        r.backed_up == count_where(outcomes@, |o: EntryOutcome| o is BackedUpAndLinked),
        r.failed == count_where(outcomes@, |o: EntryOutcome| is_failure(o)),
        r.linked + r.skipped + r.backed_up + r.failed == outcomes@.len(),
{
    let mut r = Summary { linked: 0, skipped: 0, backed_up: 0, failed: 0 };
    let mut k: usize = 0;
    while k < outcomes.len()
        invariant
            k <= outcomes@.len(),
            r.linked == count_where(outcomes@.take(k as int), |o: EntryOutcome| o is Linked),
            r.skipped == count_where(outcomes@.take(k as int), |o: EntryOutcome| o is Skipped),
            r.backed_up == count_where(outcomes@.take(k as int), |o: EntryOutcome| o is BackedUpAndLinked),
            r.failed == count_where(outcomes@.take(k as int), |o: EntryOutcome| is_failure(o)),
            r.linked + r.skipped + r.backed_up + r.failed == k,
        decreases outcomes@.len() - k,
    {
        assert(outcomes@.take(k + 1).drop_last() =~= outcomes@.take(k as int));
        match outcomes[k] {
            EntryOutcome::Linked => r.linked = r.linked + 1,
            EntryOutcome::Skipped => r.skipped = r.skipped + 1,
            EntryOutcome::BackedUpAndLinked => r.backed_up = r.backed_up + 1,
            _ => r.failed = r.failed + 1,
        }
        k = k + 1;
    }
    assert(outcomes@.take(k as int) =~= outcomes@);
    r
}

/// Reconciling a store whose entries have distinct names into a home
/// directory where none of their paths is occupied, under either policy,
/// leaves one symbolic link per entry, each pointing at the entry's file in
/// the store, and changes nothing else.
pub proof fn lemma_reconcile_converges(
    fs: FsState,
    policy: ConflictPolicy,
    root: Seq<char>,
    home: Seq<char>,
    names: Seq<Seq<char>>,
)
    requires
        names.no_duplicates(),
        forall|i: int| 0 <= i < names.len() ==> !fs.contains_key(#[trigger] join_path(home, names[i])),
    ensures
        ({
            let r = reconcile_model(fs, policy, names.map_values(|n: Seq<char>| entry_for(root, home, n)));
            &&& forall|i: int| 0 <= i < names.len() ==> r.contains_key(#[trigger] join_path(home, names[i]))
                && r[join_path(home, names[i])] == Node::Symlink(join_path(root, names[i]))
            &&& forall|p: Seq<char>| #[trigger] fs.contains_key(p) ==> r.contains_key(p) && r[p] == fs[p]
            &&& forall|p: Seq<char>| #[trigger] r.contains_key(p) ==> fs.contains_key(p) || exists|i: int|
                0 <= i < names.len() && p == join_path(home, names[i])
        }),
    decreases names.len(),
{
    let entries = names.map_values(|n: Seq<char>| entry_for(root, home, n));
    if names.len() > 0 {
        let rest = names.drop_last();
        let last = names.last();
        assert(entries.drop_last() =~= rest.map_values(|n: Seq<char>| entry_for(root, home, n)));
        assert forall|i: int| 0 <= i < rest.len() implies !fs.contains_key(#[trigger] join_path(home, rest[i])) by {
            assert(rest[i] == names[i]);
        }
        lemma_reconcile_converges(fs, policy, root, home, rest);
        let before = reconcile_model(fs, policy, entries.drop_last());
        let o = join_path(home, last);
        assert(entries.last() == entry_for(root, home, last));
        assert(!fs.contains_key(join_path(home, names[names.len() - 1])));
        if before.contains_key(o) {
            let i = choose|i: int| 0 <= i < rest.len() && o == join_path(home, rest[i]);
            lemma_join_injective(home, last, rest[i]);
            assert(names[i] == rest[i]);
            assert(false);
        }
        let r = reconcile_model(fs, policy, entries);
        assert(r == before.insert(o, Node::Symlink(join_path(root, last))));
        assert forall|i: int| 0 <= i < names.len() implies r.contains_key(#[trigger] join_path(home, names[i]))
            && r[join_path(home, names[i])] == Node::Symlink(join_path(root, names[i])) by {
            if i < rest.len() {
                assert(rest[i] == names[i]);
            }
        }
        assert forall|p: Seq<char>| #[trigger] r.contains_key(p) implies fs.contains_key(p) || exists|i: int|
            0 <= i < names.len() && p == join_path(home, names[i]) by {
            if p == o {
                assert(p == join_path(home, names[names.len() - 1]));
            } else if !fs.contains_key(p) {
                let i = choose|i: int| 0 <= i < rest.len() && p == join_path(home, rest[i]);
                assert(rest[i] == names[i]);
            }
        }
    }
}

/// Under the backup policy, a plain file in the way of an entry's link
/// ends up at `<path>.backup` with its content, and the path becomes a link
/// to the entry's file in the store.
pub proof fn lemma_backup_policy(fs: FsState, e: EntryView, content: Seq<u8>)
    requires
        fs.contains_key(e.origin_path),
        fs[e.origin_path] == Node::File(content),
    ensures
        ({
            let plan = plan_for(ConflictPolicy::Backup, e, fs.contains_key(e.origin_path));
            let r = apply_plan(fs, plan);
            &&& r.contains_key(backup_path_of(e.origin_path))
            &&& r[backup_path_of(e.origin_path)] == Node::File(content)
            &&& r.contains_key(e.origin_path)
            &&& r[e.origin_path] == Node::Symlink(e.store_path)
            &&& outcome_for(plan, true, true) == EntryOutcome::BackedUpAndLinked
        }),
{
    assert(backup_path_of(e.origin_path).len() != e.origin_path.len());
}

/// Under the skip policy, an occupied path is left exactly as it was and
/// the entry is reported as skipped, whatever else happens.
pub proof fn lemma_skip_policy(fs: FsState, e: EntryView, backup_ok: bool, link_ok: bool)
    requires
        fs.contains_key(e.origin_path),
    ensures
        ({
            let plan = plan_for(ConflictPolicy::Skip, e, fs.contains_key(e.origin_path));
            &&& apply_plan(fs, plan) == fs
            &&& outcome_for(plan, backup_ok, link_ok) == EntryOutcome::Skipped
        }),
{
}

} // verus!
