use clip_mesh::tray::{
    build_system_tray, handle_tray_event, listening_status, toggle_main_window,
    window_event_name, TrayAction, TrayEvent, TrayLine, WindowChange, WindowEvent, ABOUT_BODY,
    ABOUT_TITLE, STATUS_ITEM,
};

fn action(id: &str) -> TrayAction {
    handle_tray_event(&TrayEvent::MenuItem(id.to_string()))
}

#[test]
fn the_menu_is_laid_out() {
    let lines: Vec<String> = build_system_tray()
        .into_iter()
        .map(|line| match line {
            TrayLine::Item(i) => format!("{} {} {}", i.id, i.title, i.enabled),
            TrayLine::Separator => "-".to_string(),
            TrayLine::Submenu { title, items } => {
                assert_eq!(items.len(), 1);
                format!("{}: {} {} {}", title, items[0].id, items[0].title, items[0].enabled)
            }
        })
        .collect();
    assert_eq!(
        lines,
        vec![
            "show_window 显示窗口 true",
            "-",
            "pause_sync 暂停同步 true",
            "reconnect 重新连接 true",
            "-",
            "status_display 状态: 未连接 false",
            "节点列表: no_nodes 暂无在线节点 false",
            "-",
            "about 关于 Clip Mesh v1.0.0 true",
            "quit 退出 true",
        ]
    );
}

#[test]
fn every_event_has_its_action() {
    assert_eq!(handle_tray_event(&TrayEvent::LeftClick), TrayAction::ToggleWindow);
    assert_eq!(handle_tray_event(&TrayEvent::DoubleClick), TrayAction::ToggleWindow);
    assert_eq!(handle_tray_event(&TrayEvent::Other), TrayAction::Ignore);
    assert_eq!(action("show_window"), TrayAction::ToggleWindow);
    assert_eq!(action("pause_sync"), TrayAction::Emit(WindowEvent::SyncToggle));
    assert_eq!(action("reconnect"), TrayAction::Emit(WindowEvent::ReconnectRequest));
    assert_eq!(action("about"), TrayAction::ShowAbout);
    assert_eq!(action("quit"), TrayAction::Exit(0));
    assert_eq!(action("other"), TrayAction::Ignore);
}

#[test]
fn every_enabled_item_does_something() {
    for line in build_system_tray() {
        if let TrayLine::Item(item) = line {
            assert_eq!(item.enabled, action(&item.id) != TrayAction::Ignore);
        }
    }
}

#[test]
fn the_window_knows_its_events() {
    assert_eq!(window_event_name(WindowEvent::SyncToggle), "sync-toggle");
    assert_eq!(window_event_name(WindowEvent::ReconnectRequest), "reconnect-request");
}

#[test]
fn the_window_is_toggled() {
    assert_eq!(toggle_main_window(Some(true)), WindowChange::Hide);
    assert_eq!(toggle_main_window(Some(false)), WindowChange::ShowAndFocus);
    assert_eq!(toggle_main_window(None), WindowChange::ShowAndFocus);
}

#[test]
fn the_tray_shows_the_port() {
    assert_eq!(listening_status(4711), "状态: 监听中 (端口 4711)");
    assert_eq!(STATUS_ITEM, "status_display");
    assert_eq!(ABOUT_TITLE, "Clip Mesh");
    assert_eq!(ABOUT_BODY, "异构终端数据安全协同系统 v1.0.0\n© 2026 Makecodeeasy");
}
