use live_wallpaper::desktop::{
    choose_host, covers_monitor, desktop_covered, first_wallpaper_worker, is_background_class,
    last_icon_window, monitor_from_rect, point_near_rect, window_center, ChildWindow, Rect, TopWindow,
};

fn rect(left: i32, top: i32, right: i32, bottom: i32) -> Rect {
    Rect { left, top, right, bottom }
}

#[test]
fn monitor_geometry() {
    let m = monitor_from_rect(rect(-1920, 0, 0, 1080), false);
    assert_eq!((m.x, m.y, m.w, m.h, m.primary), (-1920, 0, 1920, 1080, false));
    let p = monitor_from_rect(rect(0, 0, 2560, 1440), true);
    assert_eq!((p.x, p.y, p.w, p.h, p.primary), (0, 0, 2560, 1440, true));
}

#[test]
fn background_classes() {
    for c in ["Progman", "WorkerW", "Shell_TrayWnd", "Shell_SecondaryTrayWnd", "LiveWallpaperTray", "LiveWallpaperSurface"] {
        assert!(is_background_class(Some(c)));
    }
    assert!(!is_background_class(Some("Chrome_WidgetWin_1")));
    assert!(!is_background_class(Some("progman")));
    assert!(!is_background_class(None));
}

#[test]
fn centers_and_coverage() {
    assert_eq!(window_center(rect(0, 0, 1920, 1080)), Some((960, 540)));
    assert_eq!(window_center(rect(10, 10, 10, 50)), None);
    assert_eq!(window_center(rect(10, 10, 5, 50)), None);
    let mon = rect(0, 0, 1920, 1080);
    assert!(covers_monitor(rect(-8, -8, 1928, 1088), mon));
    assert!(covers_monitor(rect(8, 8, 1912, 1072), mon));
    assert!(!covers_monitor(rect(9, 0, 1920, 1080), mon));
    assert!(!covers_monitor(rect(0, 0, 1911, 1080), mon));
}

#[test]
fn tray_click_tolerance() {
    let r = rect(100, 100, 124, 124);
    assert!(point_near_rect(92, 132, r));
    assert!(!point_near_rect(91, 110, r));
    assert!(!point_near_rect(110, 133, r));
}

fn win(background: bool, visible: bool, zoomed: bool, fullscreen: bool) -> TopWindow {
    TopWindow { background, visible, zoomed, fullscreen }
}

#[test]
fn desktop_coverage() {
    assert!(desktop_covered(Some(win(false, true, false, true)), &vec![]));
    assert!(!desktop_covered(Some(win(true, true, false, true)), &vec![]));
    assert!(!desktop_covered(None, &vec![win(false, false, true, false), win(true, true, true, false)]));
    assert!(desktop_covered(None, &vec![win(true, true, true, false), win(false, true, true, false)]));
    assert!(!desktop_covered(None, &vec![win(false, true, false, false)]));
}

fn child(class: Option<&str>, visible: bool, has_icons: bool) -> ChildWindow {
    ChildWindow { class: class.map(|c| c.to_string()), visible, has_icons }
}

#[test]
fn host_search() {
    let kids = vec![
        child(Some("SHELLDLL_DefView"), true, false),
        child(Some("WorkerW"), false, false),
        child(Some("WorkerW"), true, true),
        child(None, true, false),
        child(Some("WorkerW"), true, false),
        child(Some("WorkerW"), true, false),
    ];
    assert_eq!(first_wallpaper_worker(&kids), Some(4));
    assert_eq!(first_wallpaper_worker(&vec![child(Some("WorkerW"), true, true)]), None);
    assert_eq!(last_icon_window(&vec![false, true, false, true, false]), Some(3));
    assert_eq!(last_icon_window(&vec![false, false]), None);
    assert_eq!(choose_host(Some(1), Some(2), 3), 1);
    assert_eq!(choose_host(None, Some(2), 3), 2);
    assert_eq!(choose_host(None::<i32>, None, 3), 3);
}
