//! What the status bar is told: the information gathered from the workspaces
//! and the line that `xmobar` is fed with it.
use vstd::prelude::*;
use crate::config::{LogInfo, WorkspaceInfo};

verus! {

/// What the status bar reads of a workspace.
pub struct WorkspaceState {
    pub tag: String,
    pub visible: bool,
    pub urgent: bool,
}

/// Gathers what the status bar shows: each workspace with its index, its
/// tag, screen 0, whether it is the current one, visible or urgent; the
/// current layout's name and the focused window's title.
pub fn log_info(
    workspaces: &Vec<WorkspaceState>,
    current: usize,
    layout_name: String,
    window_title: String,
) -> (info: LogInfo)
    ensures
        info.workspaces@.len() == workspaces@.len(),
        forall|i: int|
            0 <= i < workspaces@.len() ==> {
                let x = #[trigger] info.workspaces@[i];
                &&& x.id == i
                &&& x.tag@ == workspaces@[i].tag@
                &&& x.screen == 0
                &&& x.current == (i == current)
                &&& x.visible == workspaces@[i].visible
                &&& x.urgent == workspaces@[i].urgent
            },
        info.layout_name == layout_name,
        info.window_title == window_title,
{
    let mut infos: Vec<WorkspaceInfo> = Vec::new();
    let mut i: usize = 0;
    while i < workspaces.len()
        invariant
            i <= workspaces@.len(),
            infos@.len() == i,
            forall|k: int|
                0 <= k < i ==> {
                    let x = #[trigger] infos@[k];
                    &&& x.id == k
                    &&& x.tag@ == workspaces@[k].tag@
                    &&& x.screen == 0
                    &&& x.current == (k == current)
                    &&& x.visible == workspaces@[k].visible
                    &&& x.urgent == workspaces@[k].urgent
                },
        decreases workspaces.len() - i,
    {
        let w = &workspaces[i];
        infos.push(
            WorkspaceInfo {
                id: i,
                tag: w.tag.clone(),
                screen: 0,
                current: i == current,
                visible: w.visible,
                urgent: w.urgent,
            },
        );
        i = i + 1;
    }
    LogInfo { workspaces: infos, layout_name, window_title }
}

/// The foreground colour of a workspace in the bar: bright green for the
/// current one, green for another visible one, red for an urgent one and
/// white for the others.
pub open spec fn foreground(x: WorkspaceInfo) -> Seq<char> {
    if x.current {
        "#00ff00"@
    } else if x.visible {
        "#009900"@
    } else if x.urgent {
        "#ff0000"@
    } else {
        "#ffffff"@
    }
}

/// The background colour of every workspace in the bar.
pub open spec fn background() -> Seq<char> {
    "#000000"@
}

/// A workspace's colour follows its state, the current one first: bright
/// green if it is the current one, else green if visible whatever its
/// urgency, else red if urgent, else white; the background is always black.
pub proof fn lemma_colour_by_state(x: WorkspaceInfo)
    ensures
        x.current ==> foreground(x) == "#00ff00"@,
        !x.current && x.visible ==> foreground(x) == "#009900"@,
        !x.current && !x.visible && x.urgent ==> foreground(x) == "#ff0000"@,
        !x.current && !x.visible && !x.urgent ==> foreground(x) == "#ffffff"@,
        background() == "#000000"@,
{
}

/// A workspace's entry in the bar is its tag in brackets, in the colours
/// its state gives: for a visible workspace that is not the current one,
/// green on black.
pub proof fn lemma_visible_entry(x: WorkspaceInfo)
    requires
        !x.current,
        x.visible,
    ensures
        entry(x) == "<fc="@ + "#009900"@ + ","@ + "#000000"@ + ">["@ + x.tag@ + "]</fc>"@,
{
}

/// The foreground and background colours of a workspace in the bar.
pub fn workspace_colors(x: &WorkspaceInfo) -> (colors: (&'static str, &'static str))
    ensures
        colors.0@ == foreground(*x),
        colors.1@ == background(),
        x.current ==> colors.0@ == "#00ff00"@,
        !x.current && x.visible ==> colors.0@ == "#009900"@,
        !x.current && !x.visible && x.urgent ==> colors.0@ == "#ff0000"@,
        !x.current && !x.visible && !x.urgent ==> colors.0@ == "#ffffff"@,
        colors.1@ == "#000000"@,
{
    if x.current {
        ("#00ff00", "#000000")
    } else if x.visible {
        ("#009900", "#000000")
    } else if x.urgent {
        ("#ff0000", "#000000")
    } else {
        ("#ffffff", "#000000")
    }
}

/// The bar's entry for a workspace: its tag in brackets, in its colours.
pub open spec fn entry(x: WorkspaceInfo) -> Seq<char> {
    "<fc="@ + foreground(x) + ","@ + background() + ">["@ + x.tag@ + "]</fc>"@
}

/// The pieces joined with `sep` between each two of them.
pub open spec fn join(pieces: Seq<Seq<char>>, sep: Seq<char>) -> Seq<char>
    decreases pieces.len(),
{
    if pieces.len() == 0 {
        Seq::<char>::empty()
    } else if pieces.len() == 1 {
        pieces[0]
    } else {
        join(pieces.drop_last(), sep) + sep + pieces.last()
    }
}

/// The line that `xmobar` is given: the workspaces' entries separated by
/// spaces, the layout's name and the window's title, separated by ` | `,
/// ended by a newline.
pub open spec fn xmobar_line(info: LogInfo) -> Seq<char> {
    join(info.workspaces@.map_values(|x: WorkspaceInfo| entry(x)), " "@) + " | "@
        + info.layout_name@ + " | "@ + info.window_title@ + "\n"@
}

/// The bar's entry for one workspace.
fn workspace_entry(x: &WorkspaceInfo) -> (s: String)
    ensures
        s@ == entry(*x),
{
    let (fg, bg) = workspace_colors(x);
    String::from_str("<fc=").concat(fg).concat(",").concat(bg).concat(">[").concat(
        x.tag.as_str(),
    ).concat("]</fc>")
}

/// Formats the status line that `xmobar` shows.
pub fn xmobar_format(info: &LogInfo) -> (line: String)
    ensures
        line@ == xmobar_line(*info),
        ({
            let tail = " | "@ + info.layout_name@ + " | "@ + info.window_title@ + "\n"@;
            &&& line@.len() >= tail.len()
            &&& line@.subrange(line@.len() - tail.len(), line@.len() as int) == tail
            &&& info.workspaces@.len() == 0 ==> line@ == tail
        }),
{
    let ghost entries = info.workspaces@.map_values(|x: WorkspaceInfo| entry(x));
    let mut joined = String::new();
    let mut i: usize = 0;
    while i < info.workspaces.len()
        invariant
            i <= info.workspaces@.len(),
            entries == info.workspaces@.map_values(|x: WorkspaceInfo| entry(x)),
            joined@ == join(entries.take(i as int), " "@),
        decreases info.workspaces.len() - i,
    {
        let piece = workspace_entry(&info.workspaces[i]);
        proof {
            assert(entries.take(i + 1).drop_last() =~= entries.take(i as int));
            assert(entries.take(i + 1).last() == piece@);
        }
        if i > 0 {
            joined.append(" ");
        } else {
            assert(entries.take(1) =~= seq![piece@]);
        }
        joined.append(piece.as_str());
        proof {
            if i == 0 {
                assert(joined@ =~= piece@);
            }
        }
        i = i + 1;
    }
    assert(entries.take(info.workspaces@.len() as int) =~= entries);
    let line = joined.concat(" | ").concat(info.layout_name.as_str()).concat(" | ").concat(
        info.window_title.as_str(),
    ).concat("\n");
    proof {
        let tail = " | "@ + info.layout_name@ + " | "@ + info.window_title@ + "\n"@;
        assert(line@ =~= joined@ + tail);
        assert(line@.subrange(line@.len() - tail.len(), line@.len() as int) =~= tail);
        if info.workspaces@.len() == 0 {
            assert(joined@ =~= Seq::<char>::empty());
        }
    }
    line
}

} // verus!
