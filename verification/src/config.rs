//! The configuration of the window manager and its defaults.
use vstd::prelude::*;
use crate::commands::{numbers_from_one, Cmd, LayoutMsg, ManageHook};
use crate::keycode::{MOD_4, MOD_SHIFT};

verus! {

/// A key, the modifiers held with it, and the command it triggers.
pub struct Keybinding {
    pub mods: u8,
    pub key: String,
    pub cmd: Cmd,
}

/// What the status bar shows of one workspace.
pub struct WorkspaceInfo {
    pub id: usize,
    pub tag: String,
    pub screen: usize,
    pub current: bool,
    pub visible: bool,
    pub urgent: bool,
}

/// What the status bar shows: the workspaces, the current layout's name and
/// the focused window's title.
pub struct LogInfo {
    pub workspaces: Vec<WorkspaceInfo>,
    pub layout_name: String,
    pub window_title: String,
}

/// The tag of a workspace and the screen it is shown on.
pub struct WorkspaceConfig {
    pub tag: String,
    pub screen: usize,
}

/// The settings of the window manager.
pub struct Config {
    pub workspaces: Vec<WorkspaceConfig>,
    pub mod_key: u8,
    pub border_width: u32,
    pub border_color: u32,
    pub border_focus_color: u32,
    pub border_urgent_color: u32,
    pub greedy_view: bool,
    pub keybindings: Vec<Keybinding>,
    pub manage_hooks: Vec<ManageHook>,
}

/// The decimal digit `d` as a character.
pub open spec fn digit(d: nat) -> char {
    (d + 48) as char
}

/// The decimal representation of `n`, without leading zeros.
pub open spec fn decimal(n: nat) -> Seq<char>
    decreases n,
{
    if n < 10 {
        seq![digit(n)]
    } else {
        decimal(n / 10).push(digit(n % 10))
    }
}

/// The decimal representation of `n`, as `usize::to_string` writes it.
#[verifier::external_body]
fn decimal_string(n: usize) -> (s: String)
    ensures
        s@ == decimal(n as nat),
{
    n.to_string()
}

/// Whether `c` runs the command line `line`.
pub open spec fn runs(c: Cmd, line: Seq<char>) -> bool {
    c matches Cmd::Exec(s) && s@ == line
}

/// Whether `k` binds `key` held with the modifiers `mods`.
pub open spec fn binds(k: Keybinding, mods: u8, key: Seq<char>) -> bool {
    k.mods == mods && k.key@ == key
}

/// The default bindings that do not depend on a workspace or screen number,
/// by their index.
pub open spec fn fixed_binding(k: Keybinding, i: int) -> bool {
    if i == 0 {
        binds(k, 0, "Return"@) && runs(k.cmd, "alacritty"@)
    } else if i == 1 {
        binds(k, 0, "p"@) && runs(k.cmd, "rofi -show run"@)
    } else if i == 2 {
        binds(k, MOD_SHIFT, "c"@) && k.cmd == Cmd::KillClient
    } else if i == 3 {
        binds(k, 0, "j"@) && k.cmd == Cmd::FocusDown
    } else if i == 4 {
        binds(k, 0, "k"@) && k.cmd == Cmd::FocusUp
    } else if i == 5 {
        binds(k, 0, "m"@) && k.cmd == Cmd::FocusMaster
    } else if i == 6 {
        binds(k, MOD_SHIFT, "j"@) && k.cmd == Cmd::SwapDown
    } else if i == 7 {
        binds(k, MOD_SHIFT, "k"@) && k.cmd == Cmd::SwapUp
    } else if i == 8 {
        binds(k, MOD_SHIFT, "Return"@) && k.cmd == Cmd::SwapMaster
    } else if i == 9 {
        binds(k, 0, "comma"@) && k.cmd == Cmd::SendLayoutMsg(LayoutMsg::IncreaseMaster)
    } else if i == 10 {
        binds(k, 0, "period"@) && k.cmd == Cmd::SendLayoutMsg(LayoutMsg::DecreaseMaster)
    } else if i == 11 {
        binds(k, 0, "apostrophe"@) && k.cmd == Cmd::SendLayoutMsg(LayoutMsg::SplitVertical)
    } else if i == 12 {
        binds(k, MOD_SHIFT, "apostrophe"@) && k.cmd == Cmd::SendLayoutMsg(
            LayoutMsg::SplitHorizontal,
        )
    } else if i == 13 {
        binds(k, 0, "l"@) && k.cmd == Cmd::SendLayoutMsg(LayoutMsg::Increase)
    } else if i == 14 {
        binds(k, 0, "h"@) && k.cmd == Cmd::SendLayoutMsg(LayoutMsg::Decrease)
    } else if i == 15 {
        binds(k, MOD_SHIFT, "q"@) && k.cmd == Cmd::Exit
    } else {
        binds(k, MOD_SHIFT, "x"@) && k.cmd == Cmd::Reload
    }
}

/// The number of default bindings that do not depend on a number.
pub open spec fn fixed_count() -> int {
    17
}

/// The key that selects the screen with the given number (from 1 to 3).
pub open spec fn screen_key(screen: int) -> Seq<char> {
    if screen == 1 {
        "w"@
    } else if screen == 2 {
        "e"@
    } else {
        "r"@
    }
}

/// The default binding at index `i`: the fixed bindings; then, for each
/// workspace number `d` from 1 to 9, the digit switches to it and the digit
/// with shift moves the focused window there; then, for the screens 1 to 3,
/// the keys `w`, `e` and `r` switch to the screen and, with shift, move the
/// focused window there.
pub open spec fn default_binding(k: Keybinding, i: int) -> bool {
    if i < fixed_count() {
        fixed_binding(k, i)
    } else if i < fixed_count() + 18 {
        let d = (i - fixed_count()) / 2 + 1;
        if (i - fixed_count()) % 2 == 0 {
            binds(k, 0, decimal(d as nat)) && k.cmd == Cmd::SwitchWorkspace(d as usize)
        } else {
            binds(k, MOD_SHIFT, decimal(d as nat)) && k.cmd == Cmd::MoveToWorkspace(d as usize)
        }
    } else {
        let s = (i - fixed_count() - 18) / 2 + 1;
        if (i - fixed_count() - 18) % 2 == 0 {
            binds(k, 0, screen_key(s)) && k.cmd == Cmd::SwitchScreen(s as usize)
        } else {
            binds(k, MOD_SHIFT, screen_key(s)) && k.cmd == Cmd::MoveToScreen(s as usize)
        }
    }
}

/// Every default binding's command numbers its workspace or screen from 1,
/// so each of them can be called.
pub proof fn lemma_default_commands_callable(k: Keybinding, i: int)
    requires
        0 <= i < fixed_count() + 24,
        default_binding(k, i),
    ensures
        numbers_from_one(k.cmd),
{
}

/// Looking a key up among the default bindings: whichever binding holds
/// the key, it runs the command the defaults give that key. Without an
/// extra modifier `j` moves the focus down, `k` up and `m` to the master,
/// `l` and `h` grow and shrink the master area; with shift, `j`, `k` and
/// `Return` move the focused window down, up and to the master, `c` kills
/// it, `q` exits and `x` reloads.
pub proof fn lemma_default_key_lookup(k: Keybinding, i: int)
    requires
        0 <= i < fixed_count() + 24,
        default_binding(k, i),
    ensures
        k.mods == 0 && k.key@ == "j"@ ==> k.cmd == Cmd::FocusDown,
        k.mods == 0 && k.key@ == "k"@ ==> k.cmd == Cmd::FocusUp,
        k.mods == 0 && k.key@ == "m"@ ==> k.cmd == Cmd::FocusMaster,
        k.mods == 0 && k.key@ == "l"@ ==> k.cmd == Cmd::SendLayoutMsg(LayoutMsg::Increase),
        k.mods == 0 && k.key@ == "h"@ ==> k.cmd == Cmd::SendLayoutMsg(LayoutMsg::Decrease),
        k.mods == MOD_SHIFT && k.key@ == "j"@ ==> k.cmd == Cmd::SwapDown,
        k.mods == MOD_SHIFT && k.key@ == "k"@ ==> k.cmd == Cmd::SwapUp,
        k.mods == MOD_SHIFT && k.key@ == "Return"@ ==> k.cmd == Cmd::SwapMaster,
        k.mods == MOD_SHIFT && k.key@ == "c"@ ==> k.cmd == Cmd::KillClient,
        k.mods == MOD_SHIFT && k.key@ == "q"@ ==> k.cmd == Cmd::Exit,
        k.mods == MOD_SHIFT && k.key@ == "x"@ ==> k.cmd == Cmd::Reload,
{
    reveal_strlit("Return");
    reveal_strlit("p");
    reveal_strlit("c");
    reveal_strlit("j");
    reveal_strlit("k");
    reveal_strlit("m");
    reveal_strlit("comma");
    reveal_strlit("period");
    reveal_strlit("apostrophe");
    reveal_strlit("l");
    reveal_strlit("h");
    reveal_strlit("q");
    reveal_strlit("x");
    reveal_strlit("w");
    reveal_strlit("e");
    reveal_strlit("r");
    assert("p"@ =~= seq!['p']);
    assert("c"@ =~= seq!['c']);
    assert("j"@ =~= seq!['j']);
    assert("k"@ =~= seq!['k']);
    assert("m"@ =~= seq!['m']);
    assert("l"@ =~= seq!['l']);
    assert("h"@ =~= seq!['h']);
    assert("q"@ =~= seq!['q']);
    assert("x"@ =~= seq!['x']);
    assert("w"@ =~= seq!['w']);
    assert("e"@ =~= seq!['e']);
    assert("r"@ =~= seq!['r']);
    let first = k.key@[0];
    assert(k.key@.len() == 1 ==> k.key@ =~= seq![first]);
    if fixed_count() <= i < fixed_count() + 18 {
        let d = (i - fixed_count()) / 2 + 1;
        assert(1 <= d <= 9);
        assert(k.key@ == seq![digit(d as nat)]);
        assert(k.key@[0] != 'j' && k.key@[0] != 'k' && k.key@[0] != 'm');
        assert(k.key@[0] != 'l' && k.key@[0] != 'h' && k.key@[0] != 'c');
        assert(k.key@[0] != 'q' && k.key@[0] != 'x' && k.key@.len() == 1);
    }
}

fn binding(mods: u8, key: &str, cmd: Cmd) -> (k: Keybinding)
    ensures
        k.mods == mods,
        k.key@ == key@,
        k.cmd == cmd,
{
    Keybinding { mods, key: String::from_str(key), cmd }
}

/// The default key bindings, in the order of `default_binding`.
fn default_keybindings() -> (bindings: Vec<Keybinding>)
    ensures
        bindings@.len() == fixed_count() + 24,
        forall|i: int| 0 <= i < bindings@.len() ==> default_binding(#[trigger] bindings@[i], i),
{
    let mut b: Vec<Keybinding> = Vec::new();
    b.push(binding(0, "Return", Cmd::Exec(String::from_str("alacritty"))));
    b.push(binding(0, "p", Cmd::Exec(String::from_str("rofi -show run"))));
    b.push(binding(MOD_SHIFT, "c", Cmd::KillClient));
    b.push(binding(0, "j", Cmd::FocusDown));
    b.push(binding(0, "k", Cmd::FocusUp));
    b.push(binding(0, "m", Cmd::FocusMaster));
    b.push(binding(MOD_SHIFT, "j", Cmd::SwapDown));
    b.push(binding(MOD_SHIFT, "k", Cmd::SwapUp));
    b.push(binding(MOD_SHIFT, "Return", Cmd::SwapMaster));
    b.push(binding(0, "comma", Cmd::SendLayoutMsg(LayoutMsg::IncreaseMaster)));
    b.push(binding(0, "period", Cmd::SendLayoutMsg(LayoutMsg::DecreaseMaster)));
    b.push(binding(0, "apostrophe", Cmd::SendLayoutMsg(LayoutMsg::SplitVertical)));
    b.push(binding(MOD_SHIFT, "apostrophe", Cmd::SendLayoutMsg(LayoutMsg::SplitHorizontal)));
    b.push(binding(0, "l", Cmd::SendLayoutMsg(LayoutMsg::Increase)));
    b.push(binding(0, "h", Cmd::SendLayoutMsg(LayoutMsg::Decrease)));
    b.push(binding(MOD_SHIFT, "q", Cmd::Exit));
    b.push(binding(MOD_SHIFT, "x", Cmd::Reload));
    assert forall|i: int| 0 <= i < b@.len() implies default_binding(#[trigger] b@[i], i) by {
        assert(fixed_binding(b@[i], i));
    }
    let mut d: usize = 1;
    while d < 10
        invariant
            1 <= d <= 10,
            b@.len() == fixed_count() + 2 * (d - 1),
            forall|i: int| 0 <= i < b@.len() ==> default_binding(#[trigger] b@[i], i),
        decreases 10 - d,
    {
        b.push(Keybinding { mods: 0, key: decimal_string(d), cmd: Cmd::SwitchWorkspace(d) });
        b.push(Keybinding { mods: MOD_SHIFT, key: decimal_string(d), cmd: Cmd::MoveToWorkspace(d) });
        d = d + 1;
    }
    let screens = vec![(1usize, "w"), (2usize, "e"), (3usize, "r")];
    let mut j: usize = 0;
    while j < screens.len()
        invariant
            j <= screens@.len(),
            screens@.len() == 3,
            screens@[0].0 == 1 && screens@[0].1@ == "w"@,
            screens@[1].0 == 2 && screens@[1].1@ == "e"@,
            screens@[2].0 == 3 && screens@[2].1@ == "r"@,
            b@.len() == fixed_count() + 18 + 2 * j,
            forall|i: int| 0 <= i < b@.len() ==> default_binding(#[trigger] b@[i], i),
        decreases screens.len() - j,
    {
        let (screen, key) = screens[j];
        b.push(binding(0, key, Cmd::SwitchScreen(screen)));
        b.push(binding(MOD_SHIFT, key, Cmd::MoveToScreen(screen)));
        j = j + 1;
    }
    b
}

/// The default workspaces: nine of them, tagged `1` to `9`, on screen 0.
fn default_workspaces() -> (workspaces: Vec<WorkspaceConfig>)
    ensures
        workspaces@.len() == 9,
        forall|i: int|
            0 <= i < 9 ==> (#[trigger] workspaces@[i]).tag@ == decimal((i + 1) as nat)
                && workspaces@[i].screen == 0,
{
    let mut workspaces: Vec<WorkspaceConfig> = Vec::new();
    let mut idx: usize = 1;
    while idx < 10
        invariant
            1 <= idx <= 10,
            workspaces@.len() == idx - 1,
            forall|i: int|
                0 <= i < idx - 1 ==> (#[trigger] workspaces@[i]).tag@ == decimal((i + 1) as nat)
                    && workspaces@[i].screen == 0,
        decreases 10 - idx,
    {
        workspaces.push(WorkspaceConfig { tag: decimal_string(idx), screen: 0 });
        idx = idx + 1;
    }
    workspaces
}

impl Default for Config {
    /// Nine workspaces tagged `1` to `9`, the Super key as modifier, borders
    /// two pixels wide, and the default key bindings.
    fn default() -> (config: Config)
        ensures
            config.workspaces@.len() == 9,
            forall|i: int|
                0 <= i < 9 ==> (#[trigger] config.workspaces@[i]).tag@ == decimal((i + 1) as nat)
                    && config.workspaces@[i].screen == 0,
            config.mod_key == MOD_4,
            config.border_width == 2,
            config.border_color == 0x002e2e2e,
            config.border_focus_color == 0x002a82e6,
            config.border_urgent_color == 0x00ff0000,
            !config.greedy_view,
            config.keybindings@.len() == fixed_count() + 24,
            forall|i: int|
                0 <= i < config.keybindings@.len() ==> default_binding(
                    #[trigger] config.keybindings@[i],
                    i,
                ),
            config.manage_hooks@.len() == 0,
            config.keybindings@[0].mods == 0 && config.keybindings@[0].key@ == "Return"@ && runs(config.keybindings@[0].cmd, "alacritty"@),
            config.keybindings@[1].mods == 0 && config.keybindings@[1].key@ == "p"@ && runs(config.keybindings@[1].cmd, "rofi -show run"@),
            config.keybindings@[2].mods == MOD_SHIFT && config.keybindings@[2].key@ == "c"@ && config.keybindings@[2].cmd == Cmd::KillClient,
            config.keybindings@[3].mods == 0 && config.keybindings@[3].key@ == "j"@ && config.keybindings@[3].cmd == Cmd::FocusDown,
            config.keybindings@[4].mods == 0 && config.keybindings@[4].key@ == "k"@ && config.keybindings@[4].cmd == Cmd::FocusUp,
            config.keybindings@[5].mods == 0 && config.keybindings@[5].key@ == "m"@ && config.keybindings@[5].cmd == Cmd::FocusMaster,
            config.keybindings@[6].mods == MOD_SHIFT && config.keybindings@[6].key@ == "j"@ && config.keybindings@[6].cmd == Cmd::SwapDown,
            config.keybindings@[7].mods == MOD_SHIFT && config.keybindings@[7].key@ == "k"@ && config.keybindings@[7].cmd == Cmd::SwapUp,
            config.keybindings@[8].mods == MOD_SHIFT && config.keybindings@[8].key@ == "Return"@ && config.keybindings@[8].cmd == Cmd::SwapMaster,
            config.keybindings@[9].mods == 0 && config.keybindings@[9].key@ == "comma"@ && config.keybindings@[9].cmd == Cmd::SendLayoutMsg(LayoutMsg::IncreaseMaster),
            config.keybindings@[10].mods == 0 && config.keybindings@[10].key@ == "period"@ && config.keybindings@[10].cmd == Cmd::SendLayoutMsg(LayoutMsg::DecreaseMaster),
            config.keybindings@[11].mods == 0 && config.keybindings@[11].key@ == "apostrophe"@ && config.keybindings@[11].cmd == Cmd::SendLayoutMsg(LayoutMsg::SplitVertical),
            config.keybindings@[12].mods == MOD_SHIFT && config.keybindings@[12].key@ == "apostrophe"@ && config.keybindings@[12].cmd == Cmd::SendLayoutMsg(LayoutMsg::SplitHorizontal),
            config.keybindings@[13].mods == 0 && config.keybindings@[13].key@ == "l"@ && config.keybindings@[13].cmd == Cmd::SendLayoutMsg(LayoutMsg::Increase),
            config.keybindings@[14].mods == 0 && config.keybindings@[14].key@ == "h"@ && config.keybindings@[14].cmd == Cmd::SendLayoutMsg(LayoutMsg::Decrease),
            config.keybindings@[15].mods == MOD_SHIFT && config.keybindings@[15].key@ == "q"@ && config.keybindings@[15].cmd == Cmd::Exit,
            config.keybindings@[16].mods == MOD_SHIFT && config.keybindings@[16].key@ == "x"@ && config.keybindings@[16].cmd == Cmd::Reload,
            config.keybindings@[35].mods == 0 && config.keybindings@[35].key@ == "w"@ && config.keybindings@[35].cmd == Cmd::SwitchScreen(1),
            config.keybindings@[36].mods == MOD_SHIFT && config.keybindings@[36].key@ == "w"@ && config.keybindings@[36].cmd == Cmd::MoveToScreen(1),
            config.keybindings@[37].mods == 0 && config.keybindings@[37].key@ == "e"@ && config.keybindings@[37].cmd == Cmd::SwitchScreen(2),
            config.keybindings@[38].mods == MOD_SHIFT && config.keybindings@[38].key@ == "e"@ && config.keybindings@[38].cmd == Cmd::MoveToScreen(2),
            config.keybindings@[39].mods == 0 && config.keybindings@[39].key@ == "r"@ && config.keybindings@[39].cmd == Cmd::SwitchScreen(3),
            config.keybindings@[40].mods == MOD_SHIFT && config.keybindings@[40].key@ == "r"@ && config.keybindings@[40].cmd == Cmd::MoveToScreen(3),
            forall|d: int|
                1 <= d <= 9 ==> {
                    &&& (#[trigger] config.keybindings@[15 + 2 * d]).mods == 0
                    &&& config.keybindings@[15 + 2 * d].key@ == decimal(d as nat)
                    &&& config.keybindings@[15 + 2 * d].cmd == Cmd::SwitchWorkspace(d as usize)
                    &&& config.keybindings@[16 + 2 * d].mods == MOD_SHIFT
                    &&& config.keybindings@[16 + 2 * d].key@ == decimal(d as nat)
                    &&& config.keybindings@[16 + 2 * d].cmd == Cmd::MoveToWorkspace(d as usize)
                },
    {
        let keybindings = default_keybindings();
        proof {
            assert forall|i: int| 0 <= i < 41 implies default_binding(#[trigger] keybindings@[i], i) by {
            }
            assert forall|d: int| 1 <= d <= 9 implies default_binding(
                #[trigger] keybindings@[15 + 2 * d],
                15 + 2 * d,
            ) && default_binding(keybindings@[16 + 2 * d], 16 + 2 * d) by {
                assert(default_binding(keybindings@[15 + 2 * d], 15 + 2 * d));
                assert(default_binding(keybindings@[16 + 2 * d], 16 + 2 * d));
            }
        }
        Config {
            workspaces: default_workspaces(),
            mod_key: MOD_4,
            border_width: 2,
            border_color: 0x002e2e2e,
            border_focus_color: 0x002a82e6,
            border_urgent_color: 0x00ff0000,
            greedy_view: false,
            keybindings,
            manage_hooks: Vec::new(),
        }
    }
}

} // verus!
