use rx3wm::commands::{Cmd, LayoutMsg};
use rx3wm::config::Config;
use rx3wm::keycode::{MOD_4, MOD_SHIFT};

#[test]
fn default_settings() {
    let c = Config::default();
    assert_eq!(c.mod_key, MOD_4);
    assert_eq!(c.mod_key, 64);
    assert_eq!(c.border_width, 2);
    assert_eq!(c.border_color, 0x002e2e2e);
    assert_eq!(c.border_focus_color, 0x002a82e6);
    assert_eq!(c.border_urgent_color, 0x00ff0000);
    assert!(!c.greedy_view);
    assert!(c.manage_hooks.is_empty());
}

#[test]
fn default_workspaces_are_tagged_one_to_nine() {
    let c = Config::default();
    let tags: Vec<&str> = c.workspaces.iter().map(|w| w.tag.as_str()).collect();
    assert_eq!(tags, vec!["1", "2", "3", "4", "5", "6", "7", "8", "9"]);
    assert!(c.workspaces.iter().all(|w| w.screen == 0));
}

#[test]
fn default_fixed_bindings() {
    let c = Config::default();
    let k = &c.keybindings;
    assert_eq!(k.len(), 41);
    assert_eq!((k[0].mods, k[0].key.as_str()), (0, "Return"));
    assert_eq!(k[0].cmd, Cmd::Exec("alacritty".to_string()));
    assert_eq!(k[1].cmd, Cmd::Exec("rofi -show run".to_string()));
    assert_eq!((k[2].mods, k[2].key.as_str()), (MOD_SHIFT, "c"));
    assert_eq!(k[2].cmd, Cmd::KillClient);
    assert_eq!((k[8].mods, k[8].key.as_str()), (MOD_SHIFT, "Return"));
    assert_eq!(k[8].cmd, Cmd::SwapMaster);
    assert_eq!(k[12].cmd, Cmd::SendLayoutMsg(LayoutMsg::SplitHorizontal));
    assert_eq!((k[15].key.as_str(), &k[15].cmd), ("q", &Cmd::Exit));
    assert_eq!((k[16].key.as_str(), &k[16].cmd), ("x", &Cmd::Reload));
}

#[test]
fn default_number_bindings() {
    let c = Config::default();
    let k = &c.keybindings;
    for d in 1..10usize {
        let i = 17 + 2 * (d - 1);
        assert_eq!((k[i].mods, k[i].key.clone()), (0, d.to_string()));
        assert_eq!(k[i].cmd, Cmd::SwitchWorkspace(d));
        assert_eq!((k[i + 1].mods, k[i + 1].key.clone()), (MOD_SHIFT, d.to_string()));
        assert_eq!(k[i + 1].cmd, Cmd::MoveToWorkspace(d));
    }
    assert_eq!((k[35].key.as_str(), &k[35].cmd), ("w", &Cmd::SwitchScreen(1)));
    assert_eq!((k[38].mods, k[38].key.as_str()), (MOD_SHIFT, "e"));
    assert_eq!(k[38].cmd, Cmd::MoveToScreen(2));
    assert_eq!((k[40].mods, k[40].key.as_str(), &k[40].cmd), (MOD_SHIFT, "r", &Cmd::MoveToScreen(3)));
}

#[test]
fn every_default_command_can_be_called() {
    let c = Config::default();
    for k in c.keybindings.iter() {
        let _ = k.cmd.call();
    }
}
