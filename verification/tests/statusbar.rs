use rx3wm::config::{LogInfo, WorkspaceInfo};
use rx3wm::statusbar::{log_info, workspace_colors, xmobar_format, WorkspaceState};

fn state(tag: &str, visible: bool, urgent: bool) -> WorkspaceState {
    WorkspaceState { tag: tag.to_string(), visible, urgent }
}

fn info(tag: &str, current: bool, visible: bool, urgent: bool) -> WorkspaceInfo {
    WorkspaceInfo { id: 0, tag: tag.to_string(), screen: 0, current, visible, urgent }
}

#[test]
fn colours_by_state() {
    assert_eq!(workspace_colors(&info("1", true, true, true)), ("#00ff00", "#000000"));
    assert_eq!(workspace_colors(&info("1", false, true, true)), ("#009900", "#000000"));
    assert_eq!(workspace_colors(&info("1", false, false, true)), ("#ff0000", "#000000"));
    assert_eq!(workspace_colors(&info("1", false, false, false)), ("#ffffff", "#000000"));
}

#[test]
fn log_info_marks_the_current_workspace() {
    let ws = vec![state("1", true, false), state("2", false, true), state("3", false, false)];
    let li = log_info(&ws, 1, "Tall".to_string(), "vim".to_string());
    assert_eq!(li.workspaces.len(), 3);
    for (i, x) in li.workspaces.iter().enumerate() {
        assert_eq!(x.id, i);
        assert_eq!(x.screen, 0);
        assert_eq!(x.current, i == 1);
        assert_eq!(x.tag, ws[i].tag);
        assert_eq!(x.visible, ws[i].visible);
        assert_eq!(x.urgent, ws[i].urgent);
    }
    assert_eq!(li.layout_name, "Tall");
    assert_eq!(li.window_title, "vim");
}

#[test]
fn xmobar_line() {
    let ws = vec![state("1", true, false), state("2", false, true), state("3", false, false)];
    let li = log_info(&ws, 0, "Tall".to_string(), "vim".to_string());
    assert_eq!(
        xmobar_format(&li),
        "<fc=#00ff00,#000000>[1]</fc> <fc=#ff0000,#000000>[2]</fc> <fc=#ffffff,#000000>[3]</fc> | Tall | vim\n"
    );
}

#[test]
fn xmobar_line_without_workspaces() {
    let li = LogInfo { workspaces: Vec::new(), layout_name: "Full".to_string(), window_title: String::new() };
    assert_eq!(xmobar_format(&li), " | Full | \n");
}
