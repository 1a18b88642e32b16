use vstd::prelude::*;
use vstd::string::*;
use crate::fsmodel::{FsState, Node, linked, renamed};
use crate::paths::{base_name, file_name, is_file_name, join, join_path};

verus! {

/// Why adopting a file failed.
#[derive(Clone, Copy, PartialEq, Eq, Structural, Debug)]
pub enum AdoptError {
    /// The store directory does not exist yet.
    StoreNotInitialized,
    /// The path does not resolve to an existing regular file.
    InvalidSource,
    /// The store already holds an entry of the same name.
    NameCollision,
    /// The file could not be moved into the store; nothing changed.
    MoveFailed,
    /// The link could not be created after the move; the move was undone
    /// (`restored`) or undoing it failed too.
    LinkCreationFailed { restored: bool },
}

/// How far the snapshot of the store got after a successful adopt.
#[derive(Clone, Copy, PartialEq, Eq, Structural, Debug)]
pub enum Snapshot {
    Committed,
    StageFailed,
    CommitFailed,
}

/// Where an adopt run stands: which reply it waits for.
#[derive(Clone, Copy, PartialEq, Eq, Structural, Debug)]
pub enum Phase {
    AwaitStore,
    AwaitResolve,
    AwaitProbe,
    AwaitMove,
    AwaitLink,
    AwaitRestore,
    AwaitStage,
    AwaitCommit,
    Done,
}

/// The next piece of outside work an adopt run asks for, and what its reply
/// means.
pub enum AdoptAction {
    /// Reply `Yes` if the store directory `root` exists.
    CheckStore { root: String },
    /// Reply `Resolved(p)` with the canonical path `p` if `path` resolves to
    /// a regular file, else `No`.
    Resolve { path: String },
    /// Reply `Yes` if anything exists at `path`.
    Probe { path: String },
    /// Rename `from` to `to`; reply `Yes` on success.
    Move { from: String, to: String },
    /// Create a symbolic link at `at` pointing to `target`; reply `Yes` on success.
    Link { target: String, at: String },
    /// Rename `from` back to `to`; reply `Yes` on success.
    Restore { from: String, to: String },
    /// Stage every change of the store at `dir`; reply `Yes` on success.
    Stage { dir: String },
    /// Commit the staged changes of `dir` with `message`; reply `Yes` on success.
    Commit { dir: String, message: String },
    /// The run is over; its outcome is `outcome()`.
    Finish,
}

/// What a `AdoptAction` stands for in specifications.
pub enum ActionView {
    CheckStore { root: Seq<char> },
    Resolve { path: Seq<char> },
    Probe { path: Seq<char> },
    Move { from: Seq<char>, to: Seq<char> },
    Link { target: Seq<char>, at: Seq<char> },
    Restore { from: Seq<char>, to: Seq<char> },
    Stage { dir: Seq<char> },
    Commit { dir: Seq<char>, message: Seq<char> },
    Finish,
}

impl View for AdoptAction {
    type V = ActionView;

    open spec fn view(&self) -> ActionView {
        match self {
            AdoptAction::CheckStore { root } => ActionView::CheckStore { root: root@ },
            AdoptAction::Resolve { path } => ActionView::Resolve { path: path@ },
            AdoptAction::Probe { path } => ActionView::Probe { path: path@ },
            AdoptAction::Move { from, to } => ActionView::Move { from: from@, to: to@ },
            AdoptAction::Link { target, at } => ActionView::Link { target: target@, at: at@ },
            AdoptAction::Restore { from, to } => ActionView::Restore { from: from@, to: to@ },
            AdoptAction::Stage { dir } => ActionView::Stage { dir: dir@ },
            AdoptAction::Commit { dir, message } => ActionView::Commit { dir: dir@, message: message@ },
            AdoptAction::Finish => ActionView::Finish,
        }
    }
}

/// The answer to the last action.
pub enum Reply {
    Yes,
    No,
    Resolved(String),
}

/// What a `Reply` stands for in specifications.
pub enum ReplyView {
    Yes,
    No,
    Resolved(Seq<char>),
}

impl View for Reply {
    type V = ReplyView;

    open spec fn view(&self) -> ReplyView {
        match self {
            Reply::Yes => ReplyView::Yes,
            Reply::No => ReplyView::No,
            Reply::Resolved(p) => ReplyView::Resolved(p@),
        }
    }
}

/// The state of an adopt run: the store root and the path given; once the
/// path has resolved, its canonical form, its name and its place in the
/// store; once the run is over, its failure if any, and otherwise how far
/// the snapshot got (`snapshot` means nothing while `failure` is set).
pub struct AdoptView {
    pub phase: Phase,
    pub root: Seq<char>,
    pub source: Seq<char>,
    pub canonical: Seq<char>,
    pub name: Seq<char>,
    pub dest: Seq<char>,
    pub failure: Option<AdoptError>,
    pub snapshot: Snapshot,
}

/// The commit message that records the adoption of `name`.
pub open spec fn commit_message(name: Seq<char>) -> Seq<char> {
    seq!['f', 'e', 'a', 't', ':', ' ', 'A', 'd', 'd', ' '] + name
}

/// A run that has ended with `failure` (none for success) and `snapshot`.
pub open spec fn finished(v: AdoptView, failure: Option<AdoptError>, snapshot: Snapshot) -> (AdoptView, ActionView) {
    (AdoptView { phase: Phase::Done, failure, snapshot, ..v }, ActionView::Finish)
}

/// A run that has ended with the error `e`.
pub open spec fn failed(v: AdoptView, e: AdoptError) -> (AdoptView, ActionView) {
    finished(v, Some(e), Snapshot::StageFailed)
}

/// A run that moves on to `phase` and asks for `a`.
pub open spec fn next(v: AdoptView, phase: Phase, a: ActionView) -> (AdoptView, ActionView) {
    (AdoptView { phase, ..v }, a)
}

/// A fresh run that adopts `source` into the store at `root`, and its
/// first action.
pub open spec fn adopt_start(root: Seq<char>, source: Seq<char>) -> (AdoptView, ActionView) {
    (
        AdoptView {
            phase: Phase::AwaitStore,
            root,
            source,
            canonical: Seq::empty(),
            name: Seq::empty(),
            dest: Seq::empty(),
            failure: None,
            snapshot: Snapshot::StageFailed,
        },
        ActionView::CheckStore { root },
    )
}

/// One step of a run: the state after `reply`, and the next action.
/// Content is moved only once the target in the store is known to be free;
/// once moved, a failed link is always followed by moving the content back;
/// a failed snapshot never undoes the move or the link.
pub open spec fn adopt_step(v: AdoptView, reply: ReplyView) -> (AdoptView, ActionView) {
    match v.phase {
        Phase::AwaitStore => if reply is Yes {
            next(v, Phase::AwaitResolve, ActionView::Resolve { path: v.source })
        } else {
            failed(v, AdoptError::StoreNotInitialized)
        },
        Phase::AwaitResolve => match reply {
            ReplyView::Resolved(c) => if is_file_name(base_name(c)) {
                let name = base_name(c);
                let dest = join_path(v.root, name);
                (
                    AdoptView { phase: Phase::AwaitProbe, canonical: c, name, dest, ..v },
                    ActionView::Probe { path: dest },
                )
            } else {
                failed(v, AdoptError::InvalidSource)
            },
            _ => failed(v, AdoptError::InvalidSource),
        },
        Phase::AwaitProbe => if reply is No {
            next(v, Phase::AwaitMove, ActionView::Move { from: v.canonical, to: v.dest })
        } else {
            failed(v, AdoptError::NameCollision)
        },
        Phase::AwaitMove => if reply is Yes {
            next(v, Phase::AwaitLink, ActionView::Link { target: v.dest, at: v.canonical })
        } else {
            failed(v, AdoptError::MoveFailed)
        },
        Phase::AwaitLink => if reply is Yes {
            next(v, Phase::AwaitStage, ActionView::Stage { dir: v.root })
        } else {
            next(v, Phase::AwaitRestore, ActionView::Restore { from: v.dest, to: v.canonical })
        },
        Phase::AwaitRestore => failed(v, AdoptError::LinkCreationFailed { restored: reply is Yes }),
        Phase::AwaitStage => if reply is Yes {
            next(v, Phase::AwaitCommit, ActionView::Commit { dir: v.root, message: commit_message(v.name) })
        } else {
            finished(v, None, Snapshot::StageFailed)
        },
        Phase::AwaitCommit => if reply is Yes {
            finished(v, None, Snapshot::Committed)
        } else {
            finished(v, None, Snapshot::CommitFailed)
        },
        Phase::Done => (v, ActionView::Finish),
    }
}

/// A run of the adopt operation. The caller performs each action it hands
/// out and passes the result back to `step`, until it hands out `Finish`.
pub struct Adopt {
    phase: Phase,
    root: String,
    source: String,
    canonical: String,
    name: String,
    dest: String,
    failure: Option<AdoptError>,
    snapshot: Snapshot,
}

impl View for Adopt {
    type V = AdoptView;

    closed spec fn view(&self) -> AdoptView {
        AdoptView {
            phase: self.phase,
            root: self.root@,
            source: self.source@,
            canonical: self.canonical@,
            name: self.name@,
            dest: self.dest@,
            failure: self.failure,
            snapshot: self.snapshot,
        }
    }
}

/// The commit message that records the adoption of `name`.
fn make_commit_message(name: &str) -> (r: String)
    ensures
        r@ == commit_message(name@),
{
    let prefix = "feat: Add ";
    proof {
        reveal_strlit("feat: Add ");
    }
    let mut r = String::from_str(prefix);
    r.append(name);
    r
}

impl Adopt {
    /// Starts adopting `source` into the store at `root`.
    pub fn start(root: &str, source: &str) -> (r: (Adopt, AdoptAction))
        ensures
            (r.0@, r.1@) == adopt_start(root@, source@),
    {
        let a = Adopt {
            phase: Phase::AwaitStore,
            root: String::from_str(root),
            source: String::from_str(source),
            canonical: String::new(),
            name: String::new(),
            dest: String::new(),
            failure: None,
            snapshot: Snapshot::StageFailed,
        };
        let act = AdoptAction::CheckStore { root: String::from_str(root) };
        (a, act)
    }

    fn finish(&mut self, failure: Option<AdoptError>, snapshot: Snapshot) -> (r: AdoptAction)
        ensures
            (final(self)@, r@) == finished(old(self)@, failure, snapshot),
    {
        self.phase = Phase::Done;
        self.failure = failure;
        self.snapshot = snapshot;
        AdoptAction::Finish
    }

    /// Takes the reply to the last action and returns the next action.
    pub fn step(&mut self, reply: Reply) -> (r: AdoptAction)
        ensures
            (final(self)@, r@) == adopt_step(old(self)@, reply@),
    {
        match self.phase {
            Phase::AwaitStore => if let Reply::Yes = reply {
                self.phase = Phase::AwaitResolve;
                AdoptAction::Resolve { path: self.source.clone() }
            } else {
                self.finish(Some(AdoptError::StoreNotInitialized), Snapshot::StageFailed)
            },
            Phase::AwaitResolve => match reply {
                Reply::Resolved(c) => match file_name(c.as_str()) {
                    Some(name) => {
                        let dest = join(self.root.as_str(), name.as_str());
                        self.phase = Phase::AwaitProbe;
                        self.canonical = c;
                        self.name = name;
                        self.dest = dest.clone();
                        AdoptAction::Probe { path: dest }
                    },
                    None => self.finish(Some(AdoptError::InvalidSource), Snapshot::StageFailed),
                },
                _ => self.finish(Some(AdoptError::InvalidSource), Snapshot::StageFailed),
            },
            Phase::AwaitProbe => if let Reply::No = reply {
                self.phase = Phase::AwaitMove;
                AdoptAction::Move { from: self.canonical.clone(), to: self.dest.clone() }
            } else {
                self.finish(Some(AdoptError::NameCollision), Snapshot::StageFailed)
            },
            Phase::AwaitMove => if let Reply::Yes = reply {
                self.phase = Phase::AwaitLink;
                AdoptAction::Link { target: self.dest.clone(), at: self.canonical.clone() }
            } else {
                self.finish(Some(AdoptError::MoveFailed), Snapshot::StageFailed)
            },
            Phase::AwaitLink => if let Reply::Yes = reply {
                self.phase = Phase::AwaitStage;
                AdoptAction::Stage { dir: self.root.clone() }
            } else {
                self.phase = Phase::AwaitRestore;
                AdoptAction::Restore { from: self.dest.clone(), to: self.canonical.clone() }
            },
            Phase::AwaitRestore => {
                let restored = if let Reply::Yes = reply {
                    true
                } else {
                    false
                };
                self.finish(Some(AdoptError::LinkCreationFailed { restored }), Snapshot::StageFailed)
            },
            Phase::AwaitStage => if let Reply::Yes = reply {
                self.phase = Phase::AwaitCommit;
                AdoptAction::Commit { dir: self.root.clone(), message: make_commit_message(self.name.as_str()) }
            } else {
                self.finish(None, Snapshot::StageFailed)
            },
            Phase::AwaitCommit => if let Reply::Yes = reply {
                self.finish(None, Snapshot::Committed)
            } else {
                self.finish(None, Snapshot::CommitFailed)
            },
            Phase::Done => AdoptAction::Finish,
        }
    }

    /// Where the run stands.
    pub fn phase(&self) -> (r: Phase)
        ensures
            r == self@.phase,
    {
        self.phase
    }

    /// The name the adopted file has in the store, once it is known.
    pub fn name(&self) -> (r: &str)
        ensures
            r@ == self@.name,
    {
        self.name.as_str()
    }

    /// How the run ended: `None` while it is still going, else the error,
    /// or on success how far the snapshot of the store got.
    pub fn outcome(&self) -> (r: Option<Result<Snapshot, AdoptError>>)
        ensures
            self@.phase != Phase::Done ==> r is None,
            self@.phase == Phase::Done ==> r == Some(
                match self@.failure {
                    Some(e) => Err(e),
                    None => Ok(self@.snapshot),
                },
            ),
    {
        if let Phase::Done = self.phase {
            match self.failure {
                Some(e) => Some(Err(e)),
                None => Some(Ok(self.snapshot)),
            }
        } else {
            None
        }
    }
}

/// A link that cannot be created after the move is undone: a run that
/// moves a regular file into a free place of the store and then fails to
/// link it moves it back, ends with `LinkCreationFailed`, and the two
/// renames it asked for leave the filesystem exactly as it was.
pub proof fn lemma_link_failure_restores(fs: FsState, root: Seq<char>, source: Seq<char>, c: Seq<char>)
    requires
        fs.contains_key(c),
        fs[c] is File,
        is_file_name(base_name(c)),
        !fs.contains_key(join_path(root, base_name(c))),
    ensures
        ({
            let dest = join_path(root, base_name(c));
            let (v0, a0) = adopt_start(root, source);
            let (v1, a1) = adopt_step(v0, ReplyView::Yes);
            let (v2, a2) = adopt_step(v1, ReplyView::Resolved(c));
            let (v3, a3) = adopt_step(v2, ReplyView::No);
            let (v4, a4) = adopt_step(v3, ReplyView::Yes);
            let (v5, a5) = adopt_step(v4, ReplyView::No);
            let (v6, a6) = adopt_step(v5, ReplyView::Yes);
            &&& a1 == ActionView::Resolve { path: source }
            &&& a2 == ActionView::Probe { path: dest }
            &&& a3 == ActionView::Move { from: c, to: dest }
            &&& a4 == ActionView::Link { target: dest, at: c }
            &&& a5 == ActionView::Restore { from: dest, to: c }
            &&& a6 == ActionView::Finish
            &&& v6.failure == Some(AdoptError::LinkCreationFailed { restored: true })
            &&& renamed(renamed(fs, c, dest), dest, c) == fs
        }),
{
    let dest = join_path(root, base_name(c));
    assert(renamed(renamed(fs, c, dest), dest, c) =~= fs);
}

/// Two files with the same base name: the first is adopted, the second
/// then finds its place in the store taken, fails with `NameCollision`
/// before anything is moved, and stays as it was.
pub proof fn lemma_adopt_collision(
    fs: FsState,
    root: Seq<char>,
    s1: Seq<char>,
    c1: Seq<char>,
    s2: Seq<char>,
    c2: Seq<char>,
)
    requires
        c1 != c2,
        base_name(c1) == base_name(c2),
        is_file_name(base_name(c1)),
        fs.contains_key(c1),
        fs.contains_key(c2),
        !fs.contains_key(join_path(root, base_name(c1))),
    ensures
        ({
            let dest = join_path(root, base_name(c1));
            let (v0, a0) = adopt_start(root, s1);
            let (v1, a1) = adopt_step(v0, ReplyView::Yes);
            let (v2, a2) = adopt_step(v1, ReplyView::Resolved(c1));
            let (v3, a3) = adopt_step(v2, ReplyView::No);
            let (v4, a4) = adopt_step(v3, ReplyView::Yes);
            let (v5, a5) = adopt_step(v4, ReplyView::Yes);
            let fs1 = linked(renamed(fs, c1, dest), dest, c1);
            let (w0, b0) = adopt_start(root, s2);
            let (w1, b1) = adopt_step(w0, ReplyView::Yes);
            let (w2, b2) = adopt_step(w1, ReplyView::Resolved(c2));
            let probe = if fs1.contains_key(dest) { ReplyView::Yes } else { ReplyView::No };
            let (w3, b3) = adopt_step(w2, probe);
            &&& a3 == ActionView::Move { from: c1, to: dest }
            &&& a4 == ActionView::Link { target: dest, at: c1 }
            &&& a5 is Stage
            &&& v5.failure is None
            &&& b2 == ActionView::Probe { path: dest }
            &&& b3 == ActionView::Finish
            &&& w3.failure == Some(AdoptError::NameCollision)
            &&& fs1.contains_key(c2) && fs1[c2] == fs[c2]
        }),
{
}

/// A successful run leaves the file's content in the store under its name
/// and a symbolic link to it at the file's old place, whether or not the
/// snapshot succeeds.
pub proof fn lemma_adopt_success_links(fs: FsState, root: Seq<char>, source: Seq<char>, c: Seq<char>, staged: bool)
    requires
        fs.contains_key(c),
        is_file_name(base_name(c)),
        !fs.contains_key(join_path(root, base_name(c))),
    ensures
        ({
            let dest = join_path(root, base_name(c));
            let (v0, a0) = adopt_start(root, source);
            let (v1, a1) = adopt_step(v0, ReplyView::Yes);
            let (v2, a2) = adopt_step(v1, ReplyView::Resolved(c));
            let (v3, a3) = adopt_step(v2, ReplyView::No);
            let (v4, a4) = adopt_step(v3, ReplyView::Yes);
            let (v5, a5) = adopt_step(v4, ReplyView::Yes);
            let (v6, a6) = adopt_step(v5, if staged { ReplyView::Yes } else { ReplyView::No });
            let after = linked(renamed(fs, c, dest), dest, c);
            &&& a3 == ActionView::Move { from: c, to: dest }
            &&& a4 == ActionView::Link { target: dest, at: c }
            &&& v6.failure is None
            &&& after.contains_key(dest) && after[dest] == fs[c]
            &&& after.contains_key(c) && after[c] == Node::Symlink(dest)
        }),
{
}

} // verus!
