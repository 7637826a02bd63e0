use live_wallpaper::tray::{
    classify_tray_message, log_line, right_button_released, surface_window_action,
    tray_window_action, truncated_utf16, wide, SurfaceAction, TrayMessage, TrayWindowAction,
    HOTKEY_ID, INFO_TITLE_UNITS, TIP_UNITS, WM_CLOSE, WM_CONTEXTMENU, WM_DESTROY, WM_HOTKEY,
    WM_NCHITTEST, WM_RBUTTONUP, WM_SHOW_MENU, WM_TRAY,
};

#[test]
fn tray_loop_messages() {
    assert_eq!(classify_tray_message(WM_HOTKEY, HOTKEY_ID, 0, false), TrayMessage::PickVideo);
    assert_eq!(classify_tray_message(WM_HOTKEY, 2, 0, false), TrayMessage::Dispatch);
    assert_eq!(classify_tray_message(WM_SHOW_MENU, 0, 0, true), TrayMessage::ShowMenu);
    assert_eq!(classify_tray_message(WM_SHOW_MENU, 0, 0, false), TrayMessage::Dispatch);
    assert_eq!(classify_tray_message(WM_TRAY, 0, WM_RBUTTONUP, true), TrayMessage::ShowMenu);
    assert_eq!(classify_tray_message(WM_TRAY, 0, WM_CONTEXTMENU, true), TrayMessage::ShowMenu);
    assert_eq!(classify_tray_message(WM_TRAY, 0, 0x0201, true), TrayMessage::Ignore);
    assert_eq!(classify_tray_message(0x000F, 0, 0, true), TrayMessage::Dispatch);
}

#[test]
fn window_procedures() {
    assert_eq!(tray_window_action(WM_DESTROY), TrayWindowAction::EndLoop);
    assert_eq!(tray_window_action(WM_CLOSE), TrayWindowAction::Destroy);
    assert_eq!(tray_window_action(0x000F), TrayWindowAction::Default);
    assert_eq!(surface_window_action(WM_DESTROY, true), SurfaceAction::MarkDestroyed);
    assert_eq!(surface_window_action(WM_NCHITTEST, true), SurfaceAction::Transparent);
    assert_eq!(surface_window_action(WM_NCHITTEST, false), SurfaceAction::Default);
    assert!(right_button_released(0, WM_RBUTTONUP));
    assert!(!right_button_released(-1, WM_RBUTTONUP));
    assert!(!right_button_released(0, 0x0202));
}

#[test]
fn fixed_size_text_fields() {
    let short = truncated_utf16("Live Wallpaper", TIP_UNITS);
    assert_eq!(short.len(), 15);
    assert_eq!(*short.last().unwrap(), 0);
    let long = "x".repeat(300);
    let t = truncated_utf16(&long, TIP_UNITS);
    assert_eq!(t.len(), 128);
    assert_eq!(t[126], b'x' as u16);
    assert_eq!(t[127], 0);
    assert_eq!(truncated_utf16("Live Wallpaper error", INFO_TITLE_UNITS).len(), 21);
    assert_eq!(wide("ab"), vec![b'a' as u16, b'b' as u16, 0]);
}

#[test]
fn log_lines() {
    assert_eq!(log_line(1700000000, "player thread exiting"), "[1700000000] player thread exiting\r\n");
    assert_eq!(log_line(0, ""), "[0] \r\n");
}
