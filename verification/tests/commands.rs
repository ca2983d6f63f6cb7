use rx3wm::commands::{exec_args, Action, Cmd, CmdManage, LayoutMsg, ManagePlan, MoveOp};

#[test]
fn numbers_become_indices() {
    assert_eq!(Cmd::SwitchWorkspace(1).call(), Action::SwitchTo(0));
    assert_eq!(Cmd::SwitchScreen(3).call(), Action::SwitchToScreen(2));
    assert_eq!(Cmd::MoveToWorkspace(9).call(), Action::MoveWindowTo(8));
    assert_eq!(Cmd::MoveToScreen(2).call(), Action::MoveWindowToScreen(1));
}

#[test]
fn focus_and_swap_commands() {
    assert_eq!(Cmd::FocusUp.call(), Action::MoveFocus(MoveOp::Up));
    assert_eq!(Cmd::FocusDown.call(), Action::MoveFocus(MoveOp::Down));
    assert_eq!(Cmd::FocusMaster.call(), Action::MoveFocus(MoveOp::Swap));
    assert_eq!(Cmd::SwapUp.call(), Action::MoveWindow(MoveOp::Up));
    assert_eq!(Cmd::SwapDown.call(), Action::MoveWindow(MoveOp::Down));
    assert_eq!(Cmd::SwapMaster.call(), Action::MoveWindow(MoveOp::Swap));
}

#[test]
fn other_commands() {
    assert_eq!(Cmd::Exec("xterm".to_string()).call(), Action::Exec("xterm".to_string()));
    assert_eq!(
        Cmd::SendLayoutMsg(LayoutMsg::SplitVertical).call(),
        Action::SendLayoutMsg(LayoutMsg::SplitVertical)
    );
    assert_eq!(Cmd::Reload.call(), Action::Reload);
    assert_eq!(Cmd::Exit.call(), Action::Exit);
    assert_eq!(Cmd::KillClient.call(), Action::KillClient);
}

#[test]
fn transient_windows_follow_their_parent() {
    assert_eq!(CmdManage::Move(4).call(Some(77)), ManagePlan::WithParent(77));
    assert_eq!(CmdManage::Move(4).call(None), ManagePlan::ToWorkspace(3));
}

#[test]
fn exec_args_split_at_spaces() {
    assert_eq!(exec_args("rofi -show run"), vec!["rofi", "-show", "run"]);
    assert_eq!(exec_args("alacritty"), vec!["alacritty"]);
}

#[test]
fn exec_args_keep_empty_pieces() {
    assert_eq!(exec_args(""), vec![""]);
    assert_eq!(exec_args("a  b "), vec!["a", "", "b", ""]);
}

#[test]
fn exec_args_join_back() {
    for line in ["", " ", "xterm -e top", "  two  spaces ", "ünïcode ärg"] {
        let args = exec_args(line);
        assert!(args.iter().all(|a| !a.contains(' ')));
        assert_eq!(args.join(" "), line);
    }
}
