use portable_runner::config::{add_shortcut, expand_shortcut, Config, PdShortcuts, Shortcut, CFG_NAME, DEFAULT_CFG};
use portable_runner::lnk::{read_lnk, LinkInfoFields, ShellLinkFields};
use portable_runner::ui::{
    menu_action, menu_items, mounted_urls, toggle_window_ops, tray_action, tray_menu_items,
    window_event_ops, ButtonState, MouseButton, TrayEvent, UiAction, WindowEvent, WindowOp, HELP_URL,
};

fn shortcut(cmd: &str, run: &str) -> Shortcut {
    Shortcut {
        cmd: cmd.to_string(),
        run: run.to_string(),
        shortcut_type: None,
        label: None,
        group: None,
        style: None,
        arguments_required: None,
        with_file: None,
    }
}

#[test]
fn add_shortcut_appends() {
    let mut c = Config { shortcuts: vec![shortcut("a", "x"), shortcut("b", "y")] };
    add_shortcut(&mut c, shortcut("open-home", "explorer %HOME%"));
    let cmds: Vec<&str> = c.shortcuts.iter().map(|s| s.cmd.as_str()).collect();
    assert_eq!(cmds, vec!["a", "b", "open-home"]);
    assert_eq!(c.shortcuts[2].run, "explorer %HOME%");
}

#[test]
fn default_configuration_text() {
    assert_eq!(CFG_NAME, ".pr.json");
    assert!(DEFAULT_CFG.contains("\"cmd\": \"open-home\""));
    assert!(DEFAULT_CFG.contains("\"run\": \"explorer %HOME%\""));
}

#[test]
fn lnk_with_link_info() {
    let link = ShellLinkFields {
        name: Some("Notepad".to_string()),
        link_info: Some(LinkInfoFields { local_base_path: Some("C:\\Windows\\notepad.exe".to_string()) }),
        arguments: Some("a.txt".to_string()),
    };
    let info = read_lnk(&link);
    assert_eq!(info.name.as_deref(), Some("Notepad"));
    assert_eq!(info.target.as_deref(), Some("C:\\Windows\\notepad.exe"));
    assert_eq!(info.arguments.as_deref(), Some("a.txt"));
}

#[test]
fn lnk_without_link_info() {
    let link = ShellLinkFields {
        name: Some("Notepad".to_string()),
        link_info: None,
        arguments: Some("a.txt".to_string()),
    };
    let info = read_lnk(&link);
    assert!(info.name.is_none() && info.target.is_none() && info.arguments.is_none());
}

#[test]
fn tray_events() {
    assert!(matches!(tray_action(&TrayEvent::LeftClick), UiAction::ToggleMainWindow));
    match tray_action(&TrayEvent::MenuItemClick("help".to_string())) {
        UiAction::Open(u) => assert_eq!(u, HELP_URL),
        _ => panic!(),
    }
    assert!(matches!(tray_action(&TrayEvent::MenuItemClick("quit".to_string())), UiAction::Exit));
    assert!(matches!(tray_action(&TrayEvent::MenuItemClick("other".to_string())), UiAction::Ignore));
    assert!(matches!(tray_action(&TrayEvent::Other), UiAction::Ignore));
}

#[test]
fn menu_events() {
    let urls = mounted_urls("E:\\test", "X:\\work", ".home");
    assert_eq!(urls.home, "file://X:\\work\\.home");
    assert!(matches!(menu_action("exit", None), UiAction::Exit));
    assert!(matches!(menu_action("tpath", None), UiAction::Ignore));
    match menu_action("tpath", Some(&urls)) {
        UiAction::Open(u) => assert_eq!(u, "file://E:\\test"),
        _ => panic!(),
    }
    match menu_action("hpath", Some(&urls)) {
        UiAction::Open(u) => assert_eq!(u, "file://X:\\work\\.home"),
        _ => panic!(),
    }
    match menu_action("help", Some(&urls)) {
        UiAction::Open(u) => assert_eq!(u, "https://github.com/kerwin612/PortableRunner"),
        _ => panic!(),
    }
    assert!(matches!(menu_action("quit", Some(&urls)), UiAction::Ignore));
}

#[test]
fn window_toggle_and_menus() {
    assert_eq!(toggle_window_ops(Some(true)), vec![WindowOp::Hide]);
    assert_eq!(toggle_window_ops(Some(false)), vec![WindowOp::Show, WindowOp::Focus]);
    assert!(toggle_window_ops(None).is_empty());
    let ids: Vec<String> = menu_items(true).into_iter().map(|p| p.0).collect();
    assert_eq!(ids, vec!["tpath", "hpath", "lpath", "help", "exit"]);
    assert_eq!(menu_items(false).len(), 2);
}

fn pd() -> PdShortcuts {
    PdShortcuts {
        entries: vec![
            ("open-url".to_string(), "msedge".to_string()),
            ("open-file".to_string(), "explorer".to_string()),
            ("open-home".to_string(), "explorer %HOME%".to_string()),
        ],
    }
}

#[test]
fn pd_shortcuts_expand() {
    assert_eq!(expand_shortcut(&pd(), "open-home"), Some(vec!["explorer %HOME%".to_string()]));
    let v = expand_shortcut(&pd(), "open-url github.com").unwrap();
    assert_eq!(v.join(" "), "msedge github.com");
    assert_eq!(expand_shortcut(&pd(), "notepad x"), None);
    assert_eq!(expand_shortcut(&pd(), "open-url"), Some(vec!["msedge".to_string()]));
    assert_eq!(expand_shortcut(&pd(), ""), None);
}

#[test]
fn tray_clicks_and_close() {
    let click = |button, state| tray_action(&TrayEvent::Click { button, state });
    assert!(matches!(click(MouseButton::Left, ButtonState::Up), UiAction::ToggleMainWindow));
    assert!(matches!(click(MouseButton::Left, ButtonState::Down), UiAction::Ignore));
    assert!(matches!(click(MouseButton::Right, ButtonState::Up), UiAction::Ignore));
    assert_eq!(window_event_ops(WindowEvent::CloseRequested), vec![WindowOp::Hide, WindowOp::PreventClose]);
    assert!(window_event_ops(WindowEvent::Other).is_empty());
    let ids: Vec<String> = tray_menu_items().into_iter().map(|p| p.0).collect();
    assert_eq!(ids, vec!["help", "quit"]);
}
