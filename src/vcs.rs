use vstd::prelude::*;
use vstd::string::*;

verus! {

/// Whether `t` occurs in `s` as a contiguous run of characters.
pub open spec fn occurs_in(t: Seq<char>, s: Seq<char>) -> bool {
    exists|i: int| 0 <= i && i + t.len() <= s.len() && #[trigger] s.subrange(i, i + t.len()) == t
}

pub open spec fn origin_name() -> Seq<char> {
    seq!['o', 'r', 'i', 'g', 'i', 'n']
}

/// What the status line of a branch holds once it tracks an upstream
/// (`## main...origin/main`).
pub open spec fn tracking_marker() -> Seq<char> {
    seq!['.', '.', '.']
}

pub open spec fn default_branch() -> Seq<char> {
    seq!['m', 'a', 's', 't', 'e', 'r']
}

/// Whether `t` occurs in `s`.
pub fn occurs(t: &str, s: &str) -> (r: bool)
    ensures
        r == occurs_in(t@, s@),
{
    let n = s.unicode_len();
    let m = t.unicode_len();
    if m > n {
        return false;
    }
    let mut i: usize = 0;
    while i <= n - m
        invariant
            n == s@.len(),
            m == t@.len(),
            m <= n,
            i <= n - m + 1,
            forall|k: int| 0 <= k < i ==> #[trigger] s@.subrange(k, k + m) != t@,
        decreases n - m + 1 - i,
    {
        let mut j: usize = 0;
        while j < m && s.get_char(i + j) == t.get_char(j)
            invariant
                n == s@.len(),
                m == t@.len(),
                i + m <= n,
                j <= m,
                forall|q: int| 0 <= q < j ==> s@[i + q] == t@[q],
            decreases m - j,
        {
            j = j + 1;
        }
        if j == m {
            assert(s@.subrange(i as int, i + m) =~= t@);
            return true;
        }
        assert(s@.subrange(i as int, i + m)[j as int] != t@[j as int]);
        i = i + 1;
    }
    false
}

/// Which push the store needs.
#[derive(Clone, Copy, PartialEq, Eq, Structural, Debug)]
pub enum PushKind {
    /// The branch tracks no upstream yet: publish it and set the upstream.
    SetUpstream,
    /// The branch already tracks an upstream.
    Plain,
}

#[derive(Clone, Copy, PartialEq, Eq, Structural, Debug)]
pub enum PushError {
    /// No remote named `origin` is configured.
    NoRemote,
}

/// The push decided from the remote listing and the branch status.
pub open spec fn push_decision(remotes: Seq<char>, status: Seq<char>) -> Result<PushKind, PushError> {
    if !occurs_in(origin_name(), remotes) {
        Err(PushError::NoRemote)
    } else if occurs_in(tracking_marker(), status) {
        Ok(PushKind::Plain)
    } else {
        Ok(PushKind::SetUpstream)
    }
}

/// Decides how to push, from the output of the remote listing and of the
/// short branch status.
pub fn decide_push(remotes: &str, status: &str) -> (r: Result<PushKind, PushError>)
    ensures
        r == push_decision(remotes@, status@),
{
    let origin = "origin";
    let marker = "...";
    proof {
        reveal_strlit("origin");
        reveal_strlit("...");
        assert(origin@ =~= origin_name());
        assert(marker@ =~= tracking_marker());
    }
    if !occurs(origin, remotes) {
        Err(PushError::NoRemote)
    } else if occurs(marker, status) {
        Ok(PushKind::Plain)
    } else {
        Ok(PushKind::SetUpstream)
    }
}

/// The upstream is set exactly once: with a remote configured, a branch
/// whose status shows no upstream gets the publishing push, and once the
/// status shows one (as it does after that push) the push is plain.
pub proof fn lemma_push_sets_upstream_once(remotes: Seq<char>, before: Seq<char>, after: Seq<char>)
    requires
        occurs_in(origin_name(), remotes),
        !occurs_in(tracking_marker(), before),
        occurs_in(tracking_marker(), after),
    ensures
        push_decision(remotes, before) == Ok::<PushKind, PushError>(PushKind::SetUpstream),
        push_decision(remotes, after) == Ok::<PushKind, PushError>(PushKind::Plain),
{
}

/// A call of the version-control tool, run inside the store directory.
pub enum ToolCall {
    Init,
    StageAll,
    Commit { message: String },
    AddRemote { url: String },
    ListRemotes,
    Status,
    Push,
    PushSetUpstream,
    Pull,
}

/// What a `ToolCall` stands for in specifications.
pub enum ToolCallView {
    Init,
    StageAll,
    Commit { message: Seq<char> },
    AddRemote { url: Seq<char> },
    ListRemotes,
    Status,
    Push,
    PushSetUpstream,
    Pull,
}

impl View for ToolCall {
    type V = ToolCallView;

    open spec fn view(&self) -> ToolCallView {
        match self {
            ToolCall::Init => ToolCallView::Init,
            ToolCall::StageAll => ToolCallView::StageAll,
            ToolCall::Commit { message } => ToolCallView::Commit { message: message@ },
            ToolCall::AddRemote { url } => ToolCallView::AddRemote { url: url@ },
            ToolCall::ListRemotes => ToolCallView::ListRemotes,
            ToolCall::Status => ToolCallView::Status,
            ToolCall::Push => ToolCallView::Push,
            ToolCall::PushSetUpstream => ToolCallView::PushSetUpstream,
            ToolCall::Pull => ToolCallView::Pull,
        }
    }
}

/// The arguments the tool is given for a call.
pub open spec fn args_of(c: ToolCallView) -> Seq<Seq<char>> {
    match c {
        ToolCallView::Init => seq![seq!['i', 'n', 'i', 't']],
        ToolCallView::StageAll => seq![seq!['a', 'd', 'd'], seq!['.']],
        ToolCallView::Commit { message } => seq![seq!['c', 'o', 'm', 'm', 'i', 't'], seq!['-', 'm'], message],
        ToolCallView::AddRemote { url } => seq![
            seq!['r', 'e', 'm', 'o', 't', 'e'],
            seq!['a', 'd', 'd'],
            origin_name(),
            url,
        ],
        ToolCallView::ListRemotes => seq![seq!['r', 'e', 'm', 'o', 't', 'e']],
        ToolCallView::Status => seq![seq!['s', 't', 'a', 't', 'u', 's'], seq!['-', 's', 'b']],
        ToolCallView::Push => seq![seq!['p', 'u', 's', 'h']],
        ToolCallView::PushSetUpstream => seq![
            seq!['p', 'u', 's', 'h'],
            seq!['-', '-', 's', 'e', 't', '-', 'u', 'p', 's', 't', 'r', 'e', 'a', 'm'],
            origin_name(),
            default_branch(),
        ],
        ToolCallView::Pull => seq![seq!['p', 'u', 'l', 'l']],
    }
}

impl ToolCall {
    /// The call that performs a push of the given kind.
    pub fn push(kind: PushKind) -> (r: ToolCall)
        ensures
            r@ == (match kind {
                PushKind::SetUpstream => ToolCallView::PushSetUpstream,
                PushKind::Plain => ToolCallView::Push,
            }),
    {
        match kind {
            PushKind::SetUpstream => ToolCall::PushSetUpstream,
            PushKind::Plain => ToolCall::Push,
        }
    }

    /// The arguments the tool is given for this call.
    pub fn args(&self) -> (r: Vec<String>)
        ensures
            r@.map_values(|a: String| a@) == args_of(self@),
    {
        proof {
            reveal_strlit("init");
            assert("init"@ =~= seq!['i', 'n', 'i', 't']);
            reveal_strlit("add");
            assert("add"@ =~= seq!['a', 'd', 'd']);
            reveal_strlit(".");
            assert("."@ =~= seq!['.']);
            reveal_strlit("commit");
            assert("commit"@ =~= seq!['c', 'o', 'm', 'm', 'i', 't']);
            reveal_strlit("-m");
            assert("-m"@ =~= seq!['-', 'm']);
            reveal_strlit("remote");
            assert("remote"@ =~= seq!['r', 'e', 'm', 'o', 't', 'e']);
            reveal_strlit("origin");
            assert("origin"@ =~= seq!['o', 'r', 'i', 'g', 'i', 'n']);
            reveal_strlit("status");
            assert("status"@ =~= seq!['s', 't', 'a', 't', 'u', 's']);
            reveal_strlit("-sb");
            assert("-sb"@ =~= seq!['-', 's', 'b']);
            reveal_strlit("push");
            assert("push"@ =~= seq!['p', 'u', 's', 'h']);
            reveal_strlit("--set-upstream");
            assert("--set-upstream"@ =~= seq!['-', '-', 's', 'e', 't', '-', 'u', 'p', 's', 't', 'r', 'e', 'a', 'm']);
            reveal_strlit("master");
            assert("master"@ =~= seq!['m', 'a', 's', 't', 'e', 'r']);
            reveal_strlit("pull");
            assert("pull"@ =~= seq!['p', 'u', 'l', 'l']);
        }
        let r = match self {
            ToolCall::Init => vec![String::from_str("init")],
            ToolCall::StageAll => vec![String::from_str("add"), String::from_str(".")],
            ToolCall::Commit { message } => vec![
                String::from_str("commit"),
                String::from_str("-m"),
                message.clone(),
            ],
            ToolCall::AddRemote { url } => vec![
                String::from_str("remote"),
                String::from_str("add"),
                String::from_str("origin"),
                url.clone(),
            ],
            ToolCall::ListRemotes => vec![String::from_str("remote")],
            ToolCall::Status => vec![String::from_str("status"), String::from_str("-sb")],
            ToolCall::Push => vec![String::from_str("push")],
            ToolCall::PushSetUpstream => vec![
                String::from_str("push"),
                String::from_str("--set-upstream"),
                String::from_str("origin"),
                String::from_str("master"),
            ],
            ToolCall::Pull => vec![String::from_str("pull")],
        };
        assert(r@.map_values(|a: String| a@) =~= args_of(self@));
        r
    }
}

} // verus!
