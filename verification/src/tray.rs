//! The tray icon and its menu: which commands there are, which event gives
//! which command, and what each command does to the windows.

use crate::address::{is_url, url_rejection};
use crate::host::{
    built_label, open_actions, open_requests, requests_of, show_and_focus_actions,
    show_and_focus_requests, HostAction, Request,
};
use crate::label::{is_generated_label, PRIMARY_LABEL};
use crate::resolver::{chars_of, resolve, resolved};
use crate::text::text_eq;
use crate::window::{Registry, Visibility, WindowError, WindowManager};
use vstd::prelude::*;
use vstd::string::*;

verus! {

/// A command of the tray menu.
#[derive(Clone, Copy, Debug, PartialEq, Eq, Structural)]
pub enum TrayCommand {
    /// Bring the primary window to the front.
    Show,
    /// Take the primary window off screen.
    Hide,
    /// Open one more window.
    NewWindow,
    /// End the process.
    Quit,
}

/// The identifier of the tray icon.
pub const TRAY_ID: &'static str = "main-tray";

/// The identifier of the menu item that shows the primary window.
pub const MENU_SHOW: &'static str = "show";

/// The identifier of the menu item that hides the primary window.
pub const MENU_HIDE: &'static str = "hide";

/// The identifier of the menu item that opens a new window.
pub const MENU_NEW_WINDOW: &'static str = "new_window";

/// The identifier of the menu item that ends the process.
pub const MENU_QUIT: &'static str = "quit";

/// The keys that open a new window.
pub const NEW_WINDOW_ACCELERATOR: &'static str = "CmdOrCtrl+N";

/// The process exit code of a quit.
pub const QUIT_CODE: i32 = 0;

/// The command of the menu item `id`, if it is one of the four.
pub open spec fn menu_command_of(id: Seq<char>) -> Option<TrayCommand> {
    if id == MENU_SHOW@ {
        Some(TrayCommand::Show)
    } else if id == MENU_HIDE@ {
        Some(TrayCommand::Hide)
    } else if id == MENU_NEW_WINDOW@ {
        Some(TrayCommand::NewWindow)
    } else if id == MENU_QUIT@ {
        Some(TrayCommand::Quit)
    } else {
        None
    }
}

/// The command that a click on the menu item `id` gives. Other identifiers
/// give none.
pub fn command_for_menu_id(id: &str) -> (command: Option<TrayCommand>)
    ensures
        command == menu_command_of(id@),
{
    if text_eq(id, MENU_SHOW) {
        Some(TrayCommand::Show)
    } else if text_eq(id, MENU_HIDE) {
        Some(TrayCommand::Hide)
    } else if text_eq(id, MENU_NEW_WINDOW) {
        Some(TrayCommand::NewWindow)
    } else if text_eq(id, MENU_QUIT) {
        Some(TrayCommand::Quit)
    } else {
        None
    }
}

/// A mouse button.
#[derive(Clone, Copy, Debug, PartialEq, Eq, Structural)]
pub enum MouseButton {
    Left,
    Right,
    Middle,
}

/// Whether a mouse button went up or down.
#[derive(Clone, Copy, Debug, PartialEq, Eq, Structural)]
pub enum MouseButtonState {
    Up,
    Down,
}

/// What happened to the tray icon.
#[derive(Clone, Copy, Debug, PartialEq, Eq, Structural)]
pub enum TrayIconEvent {
    Click { button: MouseButton, button_state: MouseButtonState },
    DoubleClick { button: MouseButton },
    Enter,
    Move,
    Leave,
}

/// The command that an event on the icon gives: the left button going up
/// shows the primary window, and nothing else does anything.
pub fn command_for_tray_event(event: TrayIconEvent) -> (command: Option<TrayCommand>)
    ensures
        command == if event == (TrayIconEvent::Click {
            button: MouseButton::Left,
            button_state: MouseButtonState::Up,
        }) {
            Some(TrayCommand::Show)
        } else {
            None
        },
{
    match event {
        TrayIconEvent::Click { button: MouseButton::Left, button_state: MouseButtonState::Up } => {
            Some(TrayCommand::Show)
        },
        _ => None,
    }
}

/// One item of the tray menu.
#[derive(Debug, PartialEq, Eq)]
pub struct MenuEntry {
    pub id: String,
    pub title: String,
    pub enabled: bool,
    pub accelerator: Option<String>,
}

/// A `MenuEntry` as a mathematical value.
pub struct MenuItem {
    pub id: Seq<char>,
    pub title: Seq<char>,
    pub enabled: bool,
    pub accelerator: Option<Seq<char>>,
}

impl View for MenuEntry {
    type V = MenuItem;

    open spec fn view(&self) -> MenuItem {
        MenuItem {
            id: self.id@,
            title: self.title@,
            enabled: self.enabled,
            accelerator: match self.accelerator {
                Some(keys) => Some(keys@),
                None => None,
            },
        }
    }
}

/// The four items of the tray menu, from top to bottom.
pub open spec fn menu_items() -> Seq<MenuItem> {
    seq![
        MenuItem { id: MENU_SHOW@, title: "Show"@, enabled: true, accelerator: None },
        MenuItem { id: MENU_HIDE@, title: "Hide"@, enabled: true, accelerator: None },
        MenuItem {
            id: MENU_NEW_WINDOW@,
            title: "New Window"@,
            enabled: true,
            accelerator: Some(NEW_WINDOW_ACCELERATOR@),
        },
        MenuItem { id: MENU_QUIT@, title: "Quit"@, enabled: true, accelerator: None },
    ]
}

/// Each of the four items gives a command of its own, and every command has
/// its item.
pub proof fn law_menu_gives_every_command()
    ensures
        menu_items().len() == 4,
        menu_command_of(menu_items()[0].id) == Some(TrayCommand::Show),
        menu_command_of(menu_items()[1].id) == Some(TrayCommand::Hide),
        menu_command_of(menu_items()[2].id) == Some(TrayCommand::NewWindow),
        menu_command_of(menu_items()[3].id) == Some(TrayCommand::Quit),
{
    reveal_strlit("show");
    reveal_strlit("hide");
    reveal_strlit("new_window");
    reveal_strlit("quit");
    assert(MENU_SHOW@[0] == 's');
    assert(MENU_HIDE@[0] == 'h');
    assert(MENU_NEW_WINDOW@[0] == 'n');
    assert(MENU_QUIT@[0] == 'q');
}

/// The items that `entries` stand for, in their order.
pub open spec fn items_of(entries: Seq<MenuEntry>) -> Seq<MenuItem> {
    entries.map_values(|e: MenuEntry| e@)
}

/// The tray menu.
pub fn tray_menu() -> (entries: Vec<MenuEntry>)
    ensures
        items_of(entries@) == menu_items(),
{
    let mut entries: Vec<MenuEntry> = Vec::new();
    entries.push(
        MenuEntry {
            id: MENU_SHOW.to_owned(),
            title: "Show".to_owned(),
            enabled: true,
            accelerator: None,
        },
    );
    entries.push(
        MenuEntry {
            id: MENU_HIDE.to_owned(),
            title: "Hide".to_owned(),
            enabled: true,
            accelerator: None,
        },
    );
    entries.push(
        MenuEntry {
            id: MENU_NEW_WINDOW.to_owned(),
            title: "New Window".to_owned(),
            enabled: true,
            accelerator: Some(NEW_WINDOW_ACCELERATOR.to_owned()),
        },
    );
    entries.push(
        MenuEntry {
            id: MENU_QUIT.to_owned(),
            title: "Quit".to_owned(),
            enabled: true,
            accelerator: None,
        },
    );
    assert(items_of(entries@) =~= menu_items());
    entries
}

/// How the tray icon is set up.
#[derive(Debug, PartialEq, Eq)]
pub struct TraySettings {
    pub id: String,
    pub menu: Vec<MenuEntry>,
    pub menu_on_left_click: bool,
}

/// The tray icon's settings: its identifier, its menu, and that a left click
/// does not open the menu.
pub fn tray_settings() -> (settings: TraySettings)
    ensures
        settings.id@ == TRAY_ID@,
        items_of(settings.menu@) == menu_items(),
        !settings.menu_on_left_click,
{
    TraySettings { id: TRAY_ID.to_owned(), menu: tray_menu(), menu_on_left_click: false }
}

/// Brings the primary window to the front: the registry records it as
/// visible, and the host is asked to show, restore and focus it.
pub fn show_and_focus(windows: &mut WindowManager) -> (actions: Vec<HostAction>)
    requires
        old(windows).wf(),
    ensures
        final(windows).wf(),
        final(windows)@ == old(windows)@.with_visibility(PRIMARY_LABEL@, Visibility::Visible),
        requests_of(actions@) == show_and_focus_requests(PRIMARY_LABEL@),
{
    windows.show(PRIMARY_LABEL);
    show_and_focus_actions(PRIMARY_LABEL)
}

/// A new secondary window at `url` was opened: the host is asked to build it
/// and to send it to `url`, its label is a generated one that was never given
/// out before, and the registry holds the window.
pub open spec fn opened(
    before: Registry,
    after: Registry,
    requests: Seq<Request>,
    url: Seq<char>,
) -> bool {
    &&& is_generated_label(built_label(requests))
    &&& !before.issued.contains(built_label(requests))
    &&& after == before.with_secondary(built_label(requests), url)
    &&& requests == open_requests(built_label(requests), url)
}

/// Opens one more window at the address resolved now from `runtime_override`
/// and `build_default`. Where the address is no URL, or the drawn label was
/// given out before, nothing is opened and the registry stays as it was.
pub fn create_new_window(
    windows: &mut WindowManager,
    runtime_override: Option<&str>,
    build_default: Option<&str>,
) -> (made: Result<Vec<HostAction>, WindowError>)
    requires
        old(windows).wf(),
    ensures
        final(windows).wf(),
        match made {
            Ok(actions) => {
                &&& is_url(resolved(chars_of(runtime_override), chars_of(build_default)))
                &&& opened(
                    old(windows)@,
                    final(windows)@,
                    requests_of(actions@),
                    resolved(chars_of(runtime_override), chars_of(build_default)),
                )
            },
            Err(WindowError::InvalidUrl { reason }) => {
                &&& url_rejection(resolved(chars_of(runtime_override), chars_of(build_default)))
                    == Some(reason@)
                &&& final(windows)@ == old(windows)@
            },
            Err(WindowError::LabelTaken { label }) => {
                &&& is_url(resolved(chars_of(runtime_override), chars_of(build_default)))
                &&& is_generated_label(label@)
                &&& old(windows)@.issued.contains(label@)
                &&& final(windows)@ == old(windows)@
            },
        },
{
    let url = resolve(runtime_override, build_default);
    match windows.create_secondary(url.as_str()) {
        Ok(label) => {
            let actions = open_actions(label.as_str(), url.as_str());
            assert(built_label(requests_of(actions@)) == label@);
            Ok(actions)
        },
        Err(WindowError::InvalidUrl { reason }) => Err(WindowError::InvalidUrl { reason }),
        Err(WindowError::LabelTaken { label }) => Err(WindowError::LabelTaken { label }),
    }
}

/// Whether a draw can fail on `registry`: whether some generated label was
/// given out, so that it can be drawn again.
pub open spec fn can_collide(registry: Registry) -> bool {
    exists|label: Seq<char>| #[trigger] registry.issued.contains(label) && is_generated_label(label)
}

/// What a command does: how the registry after it relates to the registry
/// before it, and what the host is asked to do. `url` is the address resolved
/// when the command came. A new window is owed where `url` is a URL and no
/// draw can fail.
pub open spec fn dispatched(
    command: TrayCommand,
    before: Registry,
    after: Registry,
    requests: Seq<Request>,
    url: Seq<char>,
) -> bool {
    match command {
        TrayCommand::Show => {
            &&& after == before.with_visibility(PRIMARY_LABEL@, Visibility::Visible)
            &&& requests == show_and_focus_requests(PRIMARY_LABEL@)
        },
        TrayCommand::Hide => {
            &&& after == before.with_visibility(PRIMARY_LABEL@, Visibility::Hidden)
            &&& requests == seq![Request::Hide { label: PRIMARY_LABEL@ }]
        },
        TrayCommand::NewWindow => {
            if requests.len() == 0 {
                &&& after == before
                &&& !is_url(url) || can_collide(before)
            } else {
                &&& is_url(url)
                &&& opened(before, after, requests, url)
            }
        },
        TrayCommand::Quit => {
            &&& after == before
            &&& requests == seq![Request::Exit { code: QUIT_CODE as int }]
        },
    }
}

/// Carries out a tray command on the windows and returns what the host is to
/// do. A new window that cannot be opened is passed over in silence: the
/// host is then asked nothing.
pub fn dispatch(
    windows: &mut WindowManager,
    command: TrayCommand,
    runtime_override: Option<&str>,
    build_default: Option<&str>,
) -> (actions: Vec<HostAction>)
    requires
        old(windows).wf(),
    ensures
        final(windows).wf(),
        dispatched(
            command,
            old(windows)@,
            final(windows)@,
            requests_of(actions@),
            resolved(chars_of(runtime_override), chars_of(build_default)),
        ),
{
    match command {
        TrayCommand::Show => show_and_focus(windows),
        TrayCommand::Hide => {
            windows.hide_window(PRIMARY_LABEL);
            let mut actions: Vec<HostAction> = Vec::new();
            actions.push(HostAction::Hide { label: PRIMARY_LABEL.to_owned() });
            assert(requests_of(actions@) =~= seq![Request::Hide { label: PRIMARY_LABEL@ }]);
            actions
        },
        TrayCommand::NewWindow => {
            match create_new_window(windows, runtime_override, build_default) {
                Ok(actions) => {
                    assert(requests_of(actions@).len() == 2);
                    actions
                },
                Err(WindowError::InvalidUrl { .. }) => {
                    let actions: Vec<HostAction> = Vec::new();
                    assert(requests_of(actions@).len() == 0);
                    actions
                },
                Err(WindowError::LabelTaken { label }) => {
                    let actions: Vec<HostAction> = Vec::new();
                    assert(requests_of(actions@).len() == 0);
                    assert(old(windows)@.issued.contains(label@) && is_generated_label(label@));
                    actions
                },
            }
        },
        TrayCommand::Quit => {
            let mut actions: Vec<HostAction> = Vec::new();
            actions.push(HostAction::Exit { code: QUIT_CODE });
            assert(requests_of(actions@) =~= seq![Request::Exit { code: QUIT_CODE as int }]);
            actions
        },
    }
}

} // verus!
