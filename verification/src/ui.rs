//! What the runner's tray icon and menu do when they are used.
use vstd::prelude::*;
use crate::text::str_eq;

verus! {

/// Where the help menu entry leads.
pub const HELP_URL: &'static str = "https://github.com/kerwin612/PortableRunner";

/// What happens in answer to a tray or menu event.
#[derive(Debug)]
pub enum UiAction {
    /// Show the main window if it is hidden, hide it if it is shown.
    ToggleMainWindow,
    /// Open a path or URL with the system's default handler.
    Open(String),
    /// End the program.
    Exit,
    /// Nothing.
    Ignore,
}

/// A mouse button.
#[derive(Clone, Copy, Debug, PartialEq, Eq, Structural)]
pub enum MouseButton {
    Left,
    Right,
    Middle,
}

/// Whether a mouse button went down or came up.
#[derive(Clone, Copy, Debug, PartialEq, Eq, Structural)]
pub enum ButtonState {
    Up,
    Down,
}

/// An event of the tray icon.
#[derive(Debug)]
pub enum TrayEvent {
    /// A left click on the icon, as a whole.
    LeftClick,
    /// A button of the mouse went down or came up on the icon.
    Click { button: MouseButton, state: ButtonState },
    /// A click on the tray menu's entry with this id.
    MenuItemClick(String),
    /// Anything else.
    Other,
}

/// The `file://` URLs of the mounted directories that the tray menu opens.
pub struct MountedUrls {
    pub target: String,
    pub link: String,
    pub home: String,
}

/// The action for a tray event: a left click (or the left button coming up) toggles the
/// main window, `help` opens the project page, `quit` ends the program.
pub fn tray_action(event: &TrayEvent) -> (r: UiAction)
    ensures
        match event {
            TrayEvent::LeftClick => r is ToggleMainWindow,
            TrayEvent::Click { button, state } => if button == MouseButton::Left && state
                == ButtonState::Up {
                r is ToggleMainWindow
            } else {
                r is Ignore
            },
            TrayEvent::MenuItemClick(id) => if id@ == "help"@ {
                r matches UiAction::Open(u) && u@ == HELP_URL@
            } else if id@ == "quit"@ {
                r is Exit
            } else {
                r is Ignore
            },
            TrayEvent::Other => r is Ignore,
        },
{
    proof {
        reveal_strlit("help");
        reveal_strlit("quit");
        assert("help"@ != "quit"@) by { assert("help"@[0] != "quit"@[0]); }
    }
    match event {
        TrayEvent::LeftClick => UiAction::ToggleMainWindow,
        TrayEvent::Click { button, state } => {
            match (button, state) {
                (MouseButton::Left, ButtonState::Up) => UiAction::ToggleMainWindow,
                _ => UiAction::Ignore,
            }
        },
        TrayEvent::MenuItemClick(id) => {
            if str_eq(id.as_str(), "help") {
                UiAction::Open(HELP_URL.to_owned())
            } else if str_eq(id.as_str(), "quit") {
                UiAction::Exit
            } else {
                UiAction::Ignore
            }
        },
        TrayEvent::Other => UiAction::Ignore,
    }
}

/// The action for a menu entry: `help` opens the project page and `exit` ends the program;
/// once a link is mounted, `tpath`, `lpath` and `hpath` open the target, the link and the
/// home directory.
pub fn menu_action(id: &str, mounted: Option<&MountedUrls>) -> (r: UiAction)
    ensures
        id@ == "help"@ ==> (r matches UiAction::Open(u) && u@ == HELP_URL@),
        id@ == "exit"@ ==> r is Exit,
        id@ == "tpath"@ ==> match mounted {
            Some(m) => r matches UiAction::Open(u) && u@ == m.target@,
            None => r is Ignore,
        },
        id@ == "lpath"@ ==> match mounted {
            Some(m) => r matches UiAction::Open(u) && u@ == m.link@,
            None => r is Ignore,
        },
        id@ == "hpath"@ ==> match mounted {
            Some(m) => r matches UiAction::Open(u) && u@ == m.home@,
            None => r is Ignore,
        },
        id@ != "help"@ && id@ != "exit"@ && id@ != "tpath"@ && id@ != "lpath"@ && id@
            != "hpath"@ ==> r is Ignore,
{
    proof {
        reveal_strlit("help");
        reveal_strlit("exit");
        reveal_strlit("tpath");
        reveal_strlit("lpath");
        reveal_strlit("hpath");
        assert("help"@ != "exit"@) by { assert("help"@[0] != "exit"@[0]); }
        assert("help"@ != "tpath"@) by { assert("help"@[0] != "tpath"@[0]); }
        assert("help"@ != "lpath"@) by { assert("help"@[0] != "lpath"@[0]); }
        assert("help"@ != "hpath"@) by { assert("help"@[1] != "hpath"@[1]); }
        assert("exit"@ != "tpath"@) by { assert("exit"@[0] != "tpath"@[0]); }
        assert("exit"@ != "lpath"@) by { assert("exit"@[0] != "lpath"@[0]); }
        assert("exit"@ != "hpath"@) by { assert("exit"@[0] != "hpath"@[0]); }
        assert("tpath"@ != "lpath"@) by { assert("tpath"@[0] != "lpath"@[0]); }
        assert("tpath"@ != "hpath"@) by { assert("tpath"@[0] != "hpath"@[0]); }
        assert("lpath"@ != "hpath"@) by { assert("lpath"@[0] != "hpath"@[0]); }
    }
    if str_eq(id, "help") {
        return UiAction::Open(HELP_URL.to_owned());
    }
    if str_eq(id, "exit") {
        return UiAction::Exit;
    }
    match mounted {
        Some(m) => {
            if str_eq(id, "tpath") {
                UiAction::Open(m.target.clone())
            } else if str_eq(id, "lpath") {
                UiAction::Open(m.link.clone())
            } else if str_eq(id, "hpath") {
                UiAction::Open(m.home.clone())
            } else {
                UiAction::Ignore
            }
        },
        None => UiAction::Ignore,
    }
}

/// The menu URLs for a mount of `tpath` at `lpath` with home `lpath\hpath`.
pub fn mounted_urls(tpath: &str, lpath: &str, hpath: &str) -> (r: MountedUrls)
    ensures
        r.target@ == "file://"@ + tpath@,
        r.link@ == "file://"@ + lpath@,
        r.home@ == "file://"@ + lpath@ + "\\"@ + hpath@,
{
    let home = crate::mount::sub_path_exec(lpath, hpath);
    MountedUrls {
        target: crate::commands::file_url(tpath),
        link: crate::commands::file_url(lpath),
        home: crate::commands::file_url(home.as_str()),
    }
}

/// A step in showing or hiding the main window.
#[derive(Clone, Copy, Debug, PartialEq, Eq, Structural)]
pub enum WindowOp {
    Hide,
    Show,
    Focus,
    /// Keep the window from closing.
    PreventClose,
}

/// An event of the main window.
#[derive(Clone, Copy, Debug, PartialEq, Eq, Structural)]
pub enum WindowEvent {
    /// The user asked to close the window.
    CloseRequested,
    Other,
}

/// Closing the main window only hides it: the runner stays in the tray.
pub fn window_event_ops(event: WindowEvent) -> (r: Vec<WindowOp>)
    ensures
        event == WindowEvent::CloseRequested ==> r@ == seq![WindowOp::Hide, WindowOp::PreventClose],
        event == WindowEvent::Other ==> r@.len() == 0,
{
    let mut r: Vec<WindowOp> = Vec::new();
    match event {
        WindowEvent::CloseRequested => {
            r.push(WindowOp::Hide);
            r.push(WindowOp::PreventClose);
            assert(r@ =~= seq![WindowOp::Hide, WindowOp::PreventClose]);
        },
        WindowEvent::Other => {},
    }
    r
}

/// Toggling the main window: hide it when it is visible, else show and focus it; when its
/// visibility cannot be read, leave it alone.
pub fn toggle_window_ops(visible: Option<bool>) -> (r: Vec<WindowOp>)
    ensures
        visible == Some(true) ==> r@ == seq![WindowOp::Hide],
        visible == Some(false) ==> r@ == seq![WindowOp::Show, WindowOp::Focus],
        visible is None ==> r@.len() == 0,
{
    let mut r: Vec<WindowOp> = Vec::new();
    match visible {
        Some(true) => {
            r.push(WindowOp::Hide);
        },
        Some(false) => {
            r.push(WindowOp::Show);
            r.push(WindowOp::Focus);
        },
        None => {},
    }
    proof {
        if visible == Some(true) {
            assert(r@ =~= seq![WindowOp::Hide]);
        } else if visible == Some(false) {
            assert(r@ =~= seq![WindowOp::Show, WindowOp::Focus]);
        }
    }
    r
}

/// The tray menu's entries as `(id, label)`: `Help` and `Exit`, preceded by `Target`,
/// `Home` and `Link` once a link is mounted.
pub fn menu_items(mounted: bool) -> (r: Vec<(String, String)>)
    ensures
        crate::profile_env::pairs_view(r@) == if mounted {
            seq![
                ("tpath"@, "Target"@),
                ("hpath"@, "Home"@),
                ("lpath"@, "Link"@),
                ("help"@, "Help"@),
                ("exit"@, "Exit"@),
            ]
        } else {
            seq![("help"@, "Help"@), ("exit"@, "Exit"@)]
        },
{
    let mut r: Vec<(String, String)> = Vec::new();
    if mounted {
        r.push(("tpath".to_owned(), "Target".to_owned()));
        r.push(("hpath".to_owned(), "Home".to_owned()));
        r.push(("lpath".to_owned(), "Link".to_owned()));
    }
    r.push(("help".to_owned(), "Help".to_owned()));
    r.push(("exit".to_owned(), "Exit".to_owned()));
    proof {
        if mounted {
            assert(crate::profile_env::pairs_view(r@) =~= seq![
                ("tpath"@, "Target"@),
                ("hpath"@, "Home"@),
                ("lpath"@, "Link"@),
                ("help"@, "Help"@),
                ("exit"@, "Exit"@),
            ]);
        } else {
            assert(crate::profile_env::pairs_view(r@) =~= seq![("help"@, "Help"@), ("exit"@, "Exit"@)]);
        }
    }
    r
}

/// The tray icon's own menu as `(id, label)`: `Help`, then `Exit` (whose id is `quit`).
pub fn tray_menu_items() -> (r: Vec<(String, String)>)
    ensures
        crate::profile_env::pairs_view(r@) == seq![("help"@, "Help"@), ("quit"@, "Exit"@)],
{
    let mut r: Vec<(String, String)> = Vec::new();
    r.push(("help".to_owned(), "Help".to_owned()));
    r.push(("quit".to_owned(), "Exit".to_owned()));
    assert(crate::profile_env::pairs_view(r@) =~= seq![("help"@, "Help"@), ("quit"@, "Exit"@)]);
    r
}

} // verus!
