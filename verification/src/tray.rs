//! The system tray: its menu, and what its events lead to.
use crate::text::{decimal_string, same_text};
use vstd::prelude::*;

verus! {

/// The id of the menu item that shows the state of the node.
pub const STATUS_ITEM: &'static str = "status_display";

/// The title of the notification that says what program this is.
pub const ABOUT_TITLE: &'static str = "Clip Mesh";

/// The text of the notification that says what program this is.
pub const ABOUT_BODY: &'static str =
    "异构终端数据安全协同系统 v1.0.0\n© 2026 Makecodeeasy";

/// A line of a menu that can be chosen, or only shows something.
#[derive(Debug)]
pub struct TrayItem {
    pub id: String,
    pub title: String,
    pub enabled: bool,
}

/// A line of the tray's menu.
#[derive(Debug)]
pub enum TrayLine {
    Item(TrayItem),
    Separator,
    Submenu { title: String, items: Vec<TrayItem> },
}

/// An event of the tray.
#[derive(Debug)]
pub enum TrayEvent {
    LeftClick,
    DoubleClick,
    /// The menu item with this id was chosen.
    MenuItem(String),
    Other,
}

/// An event that the tray sends to the window.
#[derive(Debug, Clone, Copy, PartialEq, Eq, Structural)]
pub enum WindowEvent {
    SyncToggle,
    ReconnectRequest,
}

/// What an event of the tray leads to.
#[derive(Debug, Clone, Copy, PartialEq, Eq, Structural)]
pub enum TrayAction {
    ToggleWindow,
    /// Send the window this event.
    Emit(WindowEvent),
    /// Say what program this is: show `ABOUT_TITLE` and `ABOUT_BODY`.
    ShowAbout,
    /// End the program, with this status.
    Exit(i32),
    Ignore,
}

/// What toggling the window does to it.
#[derive(Debug, Clone, Copy, PartialEq, Eq, Structural)]
pub enum WindowChange {
    Hide,
    ShowAndFocus,
}

/// A menu item, over sequences.
pub struct ItemModel {
    pub id: Seq<char>,
    pub title: Seq<char>,
    pub enabled: bool,
}

impl View for TrayItem {
    type V = ItemModel;

    open spec fn view(&self) -> ItemModel {
        ItemModel { id: self.id@, title: self.title@, enabled: self.enabled }
    }
}

/// Whether a line is the item with the given id and title.
pub open spec fn is_item(line: TrayLine, id: Seq<char>, title: Seq<char>, enabled: bool) -> bool {
    line matches TrayLine::Item(item) && item@ == (ItemModel { id, title, enabled })
}

/// Whether `menu` is the menu that a node starts with.
pub open spec fn is_first_menu(menu: Seq<TrayLine>) -> bool {
    &&& menu.len() == 10
    &&& is_item(menu[0], "show_window"@, "显示窗口"@, true)
    &&& menu[1] is Separator
    &&& is_item(menu[2], "pause_sync"@, "暂停同步"@, true)
    &&& is_item(menu[3], "reconnect"@, "重新连接"@, true)
    &&& menu[4] is Separator
    &&& is_item(menu[5], STATUS_ITEM@, "状态: 未连接"@, false)
    &&& menu[6] matches TrayLine::Submenu { title, items } && {
        &&& title@ == "节点列表"@
        &&& items@.len() == 1
        &&& items@[0]@ == (ItemModel { id: "no_nodes"@, title: "暂无在线节点"@, enabled: false })
    }
    &&& menu[7] is Separator
    &&& is_item(menu[8], "about"@, "关于 Clip Mesh v1.0.0"@, true)
    &&& is_item(menu[9], "quit"@, "退出"@, true)
}

fn item(id: &str, title: &str, enabled: bool) -> (i: TrayItem)
    ensures
        i@ == (ItemModel { id: id@, title: title@, enabled }),
{
    TrayItem { id: id.to_owned(), title: title.to_owned(), enabled }
}

/// Makes the menu that a node starts with.
pub fn build_system_tray() -> (menu: Vec<TrayLine>)
    ensures
        is_first_menu(menu@),
{
    let mut nodes: Vec<TrayItem> = Vec::new();
    nodes.push(item("no_nodes", "暂无在线节点", false));
    let mut menu: Vec<TrayLine> = Vec::new();
    menu.push(TrayLine::Item(item("show_window", "显示窗口", true)));
    menu.push(TrayLine::Separator);
    menu.push(TrayLine::Item(item("pause_sync", "暂停同步", true)));
    menu.push(TrayLine::Item(item("reconnect", "重新连接", true)));
    menu.push(TrayLine::Separator);
    menu.push(TrayLine::Item(item(STATUS_ITEM, "状态: 未连接", false)));
    menu.push(TrayLine::Submenu { title: "节点列表".to_owned(), items: nodes });
    menu.push(TrayLine::Separator);
    menu.push(TrayLine::Item(item("about", "关于 Clip Mesh v1.0.0", true)));
    menu.push(TrayLine::Item(item("quit", "退出", true)));
    menu
}

/// What choosing the menu item with the given id leads to.
pub open spec fn action_of_item(id: Seq<char>) -> TrayAction {
    if id == "show_window"@ {
        TrayAction::ToggleWindow
    } else if id == "pause_sync"@ {
        TrayAction::Emit(WindowEvent::SyncToggle)
    } else if id == "reconnect"@ {
        TrayAction::Emit(WindowEvent::ReconnectRequest)
    } else if id == "about"@ {
        TrayAction::ShowAbout
    } else if id == "quit"@ {
        TrayAction::Exit(0)
    } else {
        TrayAction::Ignore
    }
}

/// What an event of the tray leads to.
pub open spec fn action_of(event: TrayEvent) -> TrayAction {
    match event {
        TrayEvent::LeftClick | TrayEvent::DoubleClick => TrayAction::ToggleWindow,
        TrayEvent::MenuItem(id) => action_of_item(id@),
        TrayEvent::Other => TrayAction::Ignore,
    }
}

/// Says what an event of the tray leads to.
pub fn handle_tray_event(event: &TrayEvent) -> (action: TrayAction)
    ensures
        action == action_of(*event),
        *event is LeftClick || *event is DoubleClick ==> action == TrayAction::ToggleWindow,
        *event is Other ==> action == TrayAction::Ignore,
        event matches TrayEvent::MenuItem(id) ==> action == if id@ == "show_window"@ {
            TrayAction::ToggleWindow
        } else if id@ == "pause_sync"@ {
            TrayAction::Emit(WindowEvent::SyncToggle)
        } else if id@ == "reconnect"@ {
            TrayAction::Emit(WindowEvent::ReconnectRequest)
        } else if id@ == "about"@ {
            TrayAction::ShowAbout
        } else if id@ == "quit"@ {
            TrayAction::Exit(0)
        } else {
            TrayAction::Ignore
        },
{
    match event {
        TrayEvent::LeftClick | TrayEvent::DoubleClick => TrayAction::ToggleWindow,
        TrayEvent::MenuItem(id) => {
            let id = id.as_str();
            if same_text(id, "show_window") {
                TrayAction::ToggleWindow
            } else if same_text(id, "pause_sync") {
                TrayAction::Emit(WindowEvent::SyncToggle)
            } else if same_text(id, "reconnect") {
                TrayAction::Emit(WindowEvent::ReconnectRequest)
            } else if same_text(id, "about") {
                TrayAction::ShowAbout
            } else if same_text(id, "quit") {
                TrayAction::Exit(0)
            } else {
                TrayAction::Ignore
            }
        },
        TrayEvent::Other => TrayAction::Ignore,
    }
}

/// In the menu, the items that can be chosen are those that lead to something, and
/// no two of them lead to the same.
pub proof fn every_enabled_item_does_something(menu: Seq<TrayLine>, i: int, j: int)
    requires
        is_first_menu(menu),
        0 <= i < menu.len(),
        0 <= j < menu.len(),
        menu[i] is Item,
        menu[j] is Item,
    ensures
        menu[i]->Item_0.enabled <==> action_of_item(menu[i]->Item_0.id@) != TrayAction::Ignore,
        i != j && menu[i]->Item_0.enabled && menu[j]->Item_0.enabled ==> action_of_item(
            menu[i]->Item_0.id@,
        ) != action_of_item(menu[j]->Item_0.id@),
{
    reveal_strlit("show_window");
    reveal_strlit("pause_sync");
    reveal_strlit("reconnect");
    reveal_strlit("about");
    reveal_strlit("quit");
    reveal_strlit("status_display");
    assert("show_window"@.len() == 11 && "pause_sync"@.len() == 10 && "reconnect"@.len() == 9
        && "about"@.len() == 5 && "quit"@.len() == 4 && "status_display"@.len() == 14);
}

/// The name of an event as the window knows it.
pub fn window_event_name(event: WindowEvent) -> (name: &'static str)
    ensures
        name@ == match event {
            WindowEvent::SyncToggle => "sync-toggle"@,
            WindowEvent::ReconnectRequest => "reconnect-request"@,
        },
{
    match event {
        WindowEvent::SyncToggle => "sync-toggle",
        WindowEvent::ReconnectRequest => "reconnect-request",
    }
}

/// Says what toggling does to the window, whose visibility may be unknown.
pub fn toggle_main_window(visible: Option<bool>) -> (change: WindowChange)
    ensures
        change == if visible == Some(true) {
            WindowChange::Hide
        } else {
            WindowChange::ShowAndFocus
        },
{
    match visible {
        Some(true) => WindowChange::Hide,
        _ => WindowChange::ShowAndFocus,
    }
}

/// The state shown while the node listens on a port.
pub fn listening_status(port: u16) -> (s: String)
    ensures
        s@ == "状态: 监听中 (端口 "@ + crate::text::decimal(port as nat) + ")"@,
        exists|p: Seq<char>|
            s@ == "状态: 监听中 (端口 "@ + p + ")"@ && #[trigger] crate::text::is_numeral(
                p,
                port as int,
            ),
{
    proof {
        crate::text::decimal_reads_back(port as nat);
    }
    let mut s: String = "状态: 监听中 (端口 ".to_owned();
    s.append(decimal_string(port as u64).as_str());
    s.append(")");
    s
}

} // verus!
