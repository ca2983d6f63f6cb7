//! The commands that key bindings and manage hooks trigger, and what each of
//! them asks of the workspaces and of the display.
use vstd::prelude::*;
use vstd::string::StrSliceExecFns;
use crate::statusbar::join;

verus! {

/// A message to the layout of the current workspace.
#[derive(Clone, Copy, Debug, PartialEq, Eq, Structural)]
pub enum LayoutMsg {
    Increase,
    Decrease,
    IncreaseMaster,
    DecreaseMaster,
    SplitHorizontal,
    SplitVertical,
}

/// A command bound to a key. Workspace and screen numbers count from 1.
#[derive(Debug, PartialEq, Eq)]
pub enum Cmd {
    Exec(String),
    SwitchWorkspace(usize),
    SwitchScreen(usize),
    MoveToWorkspace(usize),
    MoveToScreen(usize),
    SendLayoutMsg(LayoutMsg),
    Reload,
    Exit,
    KillClient,
    FocusUp,
    FocusDown,
    FocusMaster,
    SwapUp,
    SwapDown,
    SwapMaster,
}

/// A direction in which the focus or a window moves within a workspace.
#[derive(Clone, Copy, Debug, PartialEq, Eq, Structural)]
pub enum MoveOp {
    Up,
    Down,
    Swap,
}

/// What a command asks for. Workspace and screen indices count from 0.
#[derive(Debug, PartialEq, Eq)]
pub enum Action {
    /// Run the command line in a thread of its own.
    Exec(String),
    /// Show the workspace with this index.
    SwitchTo(usize),
    /// Move the focus to the screen with this index.
    SwitchToScreen(usize),
    /// Move the focused window to the workspace with this index.
    MoveWindowTo(usize),
    /// Move the focused window to the screen with this index.
    MoveWindowToScreen(usize),
    /// Hand the message to the current workspace's layout, then redraw it.
    SendLayoutMsg(LayoutMsg),
    /// Rebuild the window manager, save the workspaces and restart.
    Reload,
    /// Close the connection to the display.
    Exit,
    /// Kill the focused window of the current workspace.
    KillClient,
    /// Move the focus within the current workspace.
    MoveFocus(MoveOp),
    /// Move the focused window within the current workspace.
    MoveWindow(MoveOp),
}

/// Whether the workspace or screen number that a command carries, if any,
/// is at least 1.
pub open spec fn numbers_from_one(c: Cmd) -> bool {
    match c {
        Cmd::SwitchWorkspace(i) => i >= 1,
        Cmd::SwitchScreen(i) => i >= 1,
        Cmd::MoveToWorkspace(i) => i >= 1,
        Cmd::MoveToScreen(i) => i >= 1,
        _ => true,
    }
}

/// What a command asks for: numbers counted from 1 become indices counted
/// from 0.
pub open spec fn action_of(c: Cmd) -> Action {
    match c {
        Cmd::Exec(s) => Action::Exec(s),
        Cmd::SwitchWorkspace(i) => Action::SwitchTo((i - 1) as usize),
        Cmd::SwitchScreen(i) => Action::SwitchToScreen((i - 1) as usize),
        Cmd::MoveToWorkspace(i) => Action::MoveWindowTo((i - 1) as usize),
        Cmd::MoveToScreen(i) => Action::MoveWindowToScreen((i - 1) as usize),
        Cmd::SendLayoutMsg(m) => Action::SendLayoutMsg(m),
        Cmd::Reload => Action::Reload,
        Cmd::Exit => Action::Exit,
        Cmd::KillClient => Action::KillClient,
        Cmd::FocusUp => Action::MoveFocus(MoveOp::Up),
        Cmd::FocusDown => Action::MoveFocus(MoveOp::Down),
        Cmd::FocusMaster => Action::MoveFocus(MoveOp::Swap),
        Cmd::SwapUp => Action::MoveWindow(MoveOp::Up),
        Cmd::SwapDown => Action::MoveWindow(MoveOp::Down),
        Cmd::SwapMaster => Action::MoveWindow(MoveOp::Swap),
    }
}

/// A layout message is handed on to the layout unchanged, and a workspace
/// or screen number `n` (from 1) becomes the index `n - 1` (from 0).
pub proof fn lemma_commands_pass_their_argument(m: LayoutMsg, n: usize)
    requires
        n >= 1,
    ensures
        action_of(Cmd::SendLayoutMsg(m)) == Action::SendLayoutMsg(m),
        action_of(Cmd::SwitchWorkspace(n)) == Action::SwitchTo((n - 1) as usize),
        action_of(Cmd::SwitchScreen(n)) == Action::SwitchToScreen((n - 1) as usize),
        action_of(Cmd::MoveToWorkspace(n)) == Action::MoveWindowTo((n - 1) as usize),
        action_of(Cmd::MoveToScreen(n)) == Action::MoveWindowToScreen((n - 1) as usize),
{
}

/// The focus commands move the focus and the swap commands move the focused
/// window, each in its own direction: up, down, or to the master.
pub proof fn lemma_focus_and_swap_directions()
    ensures
        action_of(Cmd::FocusUp) == Action::MoveFocus(MoveOp::Up),
        action_of(Cmd::FocusDown) == Action::MoveFocus(MoveOp::Down),
        action_of(Cmd::FocusMaster) == Action::MoveFocus(MoveOp::Swap),
        action_of(Cmd::SwapUp) == Action::MoveWindow(MoveOp::Up),
        action_of(Cmd::SwapDown) == Action::MoveWindow(MoveOp::Down),
        action_of(Cmd::SwapMaster) == Action::MoveWindow(MoveOp::Swap),
{
}

impl Cmd {
    /// What this command asks of the workspaces and of the display.
    pub fn call(&self) -> (a: Action)
        requires
            numbers_from_one(*self),
        ensures
            a == action_of(*self),
            *self matches Cmd::Exec(line) ==> a matches Action::Exec(l) && l@ == line@,
            *self matches Cmd::SwitchWorkspace(n) ==> a == Action::SwitchTo((n - 1) as usize),
            *self matches Cmd::SwitchScreen(n) ==> a == Action::SwitchToScreen((n - 1) as usize),
            *self matches Cmd::MoveToWorkspace(n) ==> a == Action::MoveWindowTo((n - 1) as usize),
            *self matches Cmd::MoveToScreen(n) ==> a == Action::MoveWindowToScreen(
                (n - 1) as usize,
            ),
            *self matches Cmd::SendLayoutMsg(m) ==> a == Action::SendLayoutMsg(m),
            *self is Reload ==> a == Action::Reload,
            *self is Exit ==> a == Action::Exit,
            *self is KillClient ==> a == Action::KillClient,
            *self is FocusUp ==> a == Action::MoveFocus(MoveOp::Up),
            *self is FocusDown ==> a == Action::MoveFocus(MoveOp::Down),
            *self is FocusMaster ==> a == Action::MoveFocus(MoveOp::Swap),
            *self is SwapUp ==> a == Action::MoveWindow(MoveOp::Up),
            *self is SwapDown ==> a == Action::MoveWindow(MoveOp::Down),
            *self is SwapMaster ==> a == Action::MoveWindow(MoveOp::Swap),
    {
        match self {
            Cmd::Exec(cmd) => Action::Exec(cmd.clone()),
            Cmd::SwitchWorkspace(index) => Action::SwitchTo(*index - 1),
            Cmd::SwitchScreen(screen) => Action::SwitchToScreen(*screen - 1),
            Cmd::MoveToWorkspace(index) => Action::MoveWindowTo(*index - 1),
            Cmd::MoveToScreen(screen) => Action::MoveWindowToScreen(*screen - 1),
            Cmd::SendLayoutMsg(msg) => Action::SendLayoutMsg(*msg),
            Cmd::Reload => Action::Reload,
            Cmd::Exit => Action::Exit,
            Cmd::KillClient => Action::KillClient,
            Cmd::FocusUp => Action::MoveFocus(MoveOp::Up),
            Cmd::FocusDown => Action::MoveFocus(MoveOp::Down),
            Cmd::FocusMaster => Action::MoveFocus(MoveOp::Swap),
            Cmd::SwapUp => Action::MoveWindow(MoveOp::Up),
            Cmd::SwapDown => Action::MoveWindow(MoveOp::Down),
            Cmd::SwapMaster => Action::MoveWindow(MoveOp::Swap),
        }
    }
}

/// What to do with a new window whose class a hook names. Workspace numbers
/// count from 1.
#[derive(Debug, PartialEq, Eq)]
pub enum CmdManage {
    Move(usize),
    Float,
    Fullscreen,
    Ignore,
}

/// A rule for the new windows of one class.
pub struct ManageHook {
    pub class_name: String,
    pub cmd: CmdManage,
}

/// Where a managed window goes; it is then given the focus there.
#[derive(Clone, Copy, Debug, PartialEq, Eq, Structural)]
pub enum ManagePlan {
    /// Into the workspace that holds this window (the new window's parent),
    /// if one does.
    WithParent(u64),
    /// Into the workspace with this index, counted from 0, if there is one.
    ToWorkspace(usize),
}

impl CmdManage {
    /// Where a new window goes, given the window it is transient for, if
    /// any: a transient window follows its parent, any other goes to the
    /// hook's workspace. Only `Move` hooks are handled.
    pub fn call(&self, transient_for: Option<u64>) -> (plan: ManagePlan)
        requires
            *self matches CmdManage::Move(index) && (transient_for is None ==> index >= 1),
        ensures
            match transient_for {
                Some(parent) => plan == ManagePlan::WithParent(parent),
                None => plan == ManagePlan::ToWorkspace((self->Move_0 - 1) as usize),
            },
    {
        match self {
            CmdManage::Move(index) => match transient_for {
                Some(parent) => ManagePlan::WithParent(parent),
                None => ManagePlan::ToWorkspace(*index - 1),
            },
            // The other hooks are not handled; the precondition rules them out.
            _ => ManagePlan::ToWorkspace(0),
        }
    }
}

/// The pieces of `s` between the spaces, in order: `s` split at each space.
/// There is one more piece than there are spaces; pieces may be empty.
pub open spec fn split_at_spaces(s: Seq<char>) -> Seq<Seq<char>>
    decreases s.len(),
{
    if s.len() == 0 {
        seq![Seq::<char>::empty()]
    } else {
        let pieces = split_at_spaces(s.drop_last());
        if s.last() == ' ' {
            pieces.push(Seq::<char>::empty())
        } else {
            pieces.update(pieces.len() - 1, pieces.last().push(s.last()))
        }
    }
}

proof fn lemma_split_not_empty(s: Seq<char>)
    ensures
        split_at_spaces(s).len() >= 1,
    decreases s.len(),
{
    if s.len() > 0 {
        lemma_split_not_empty(s.drop_last());
    }
}

/// Splitting a command line at its spaces loses nothing: joining the pieces
/// with a space between each two gives the line back.
pub proof fn lemma_split_join(s: Seq<char>)
    ensures
        join(split_at_spaces(s), " "@) == s,
    decreases s.len(),
{
    if s.len() > 0 {
        let t = s.drop_last();
        let c = s.last();
        let p = split_at_spaces(t);
        lemma_split_join(t);
        lemma_split_not_empty(t);
        assert(t.push(c) == s);
        if c == ' ' {
            let q = p.push(Seq::<char>::empty());
            assert(q.drop_last() == p);
            assert(join(q, " "@) == join(p, " "@) + " "@ + Seq::<char>::empty());
            assert(" "@ =~= seq![' ']) by {
                reveal_strlit(" ");
            }
            assert(join(q, " "@) =~= s);
        } else {
            let q = p.update(p.len() - 1, p.last().push(c));
            if p.len() == 1 {
                assert(join(p, " "@) == p[0]);
                assert(join(q, " "@) =~= s);
            } else {
                assert(q.drop_last() =~= p.drop_last());
                assert(join(q, " "@) =~= s);
            }
        }
    }
}

/// No piece of a split command line holds a space.
pub proof fn lemma_split_pieces_have_no_space(s: Seq<char>, i: int, j: int)
    requires
        0 <= i < split_at_spaces(s).len(),
        0 <= j < split_at_spaces(s)[i].len(),
    ensures
        split_at_spaces(s)[i][j] != ' ',
    decreases s.len(),
{
    if s.len() > 0 {
        let t = s.drop_last();
        let p = split_at_spaces(t);
        lemma_split_not_empty(t);
        if s.last() == ' ' {
            if i < p.len() {
                lemma_split_pieces_have_no_space(t, i, j);
            }
        } else {
            if i < p.len() - 1 || j < p.last().len() {
                lemma_split_pieces_have_no_space(t, i, j);
            }
        }
    }
}

/// The program and the arguments of a command line: the line split at each
/// space.
pub fn exec_args(cmd: &str) -> (args: Vec<String>)
    ensures
        args@.len() == split_at_spaces(cmd@).len(),
        forall|i: int| 0 <= i < args@.len() ==> #[trigger] args@[i]@ == split_at_spaces(cmd@)[i],
{
    let n = cmd.unicode_len();
    let mut args: Vec<String> = Vec::new();
    let mut start: usize = 0;
    let mut i: usize = 0;
    while i < n
        invariant
            n == cmd@.len(),
            start <= i <= n,
            ({
                let pieces = split_at_spaces(cmd@.take(i as int));
                &&& pieces.len() == args@.len() + 1
                &&& forall|k: int| 0 <= k < args@.len() ==> #[trigger] args@[k]@ == pieces[k]
                &&& pieces.last() == cmd@.subrange(start as int, i as int)
            }),
        decreases n - i,
    {
        proof {
            lemma_split_not_empty(cmd@.take(i as int));
            assert(cmd@.take(i + 1).drop_last() == cmd@.take(i as int));
            assert(cmd@.take(i + 1).last() == cmd@[i as int]);
        }
        let c = cmd.get_char(i);
        if c == ' ' {
            let piece = cmd.substring_char(start, i);
            args.push(piece.to_owned());
            start = i + 1;
        }
        i = i + 1;
        proof {
            assert(cmd@.subrange(start as int, i as int) =~= if c == ' ' {
                Seq::<char>::empty()
            } else {
                cmd@.subrange(start as int, (i - 1) as int).push(c)
            });
        }
    }
    let last = cmd.substring_char(start, n);
    args.push(last.to_owned());
    proof {
        assert(cmd@.take(n as int) == cmd@);
    }
    args
}

} // verus!
