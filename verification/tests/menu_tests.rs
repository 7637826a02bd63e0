use live_wallpaper::config::Config;
use live_wallpaper::menu::{
    apply_menu_choice, change_volume, choice_label, choose_video, menu_entries, submenu_choices,
    submenu_label, title_for, video_title, MenuChoice, MenuEffect, MenuEntry, Submenu, ID_AUDIO,
    ID_AUTOSTART, ID_BATTERY, ID_CLICK, ID_DIM, ID_DOWN_720, ID_FIT_CENTER, ID_FIT_FILL,
    ID_HW_DXVA2, ID_LITE, ID_MON_ALL, ID_MON_PRIMARY, ID_PICK, ID_QUIT, ID_REND_VULKAN, ID_SMART,
    ID_VOL_DOWN, ID_VOL_UP, ID_VSYNC,
};
use live_wallpaper::menu::{ID_DOWN_540, ID_HW_AUTO, ID_REND_ANGLE};
use live_wallpaper::session::{Cmd, CmdAction, EndAction, Session, SessionResult};

#[test]
fn menu_layout_for_defaults() {
    let m = menu_entries(&Config::default());
    assert_eq!(m.len(), 22);
    assert_eq!(m[0], MenuEntry::Title);
    assert_eq!(m[1], MenuEntry::Separator);
    assert_eq!(m[2], MenuEntry::Choice(MenuChoice { id: ID_PICK, checked: false }));
    assert_eq!(m[4], MenuEntry::Choice(MenuChoice { id: ID_AUDIO, checked: true }));
    assert_eq!(m[8], MenuEntry::Sub(Submenu::Fit));
    assert_eq!(m[12], MenuEntry::Choice(MenuChoice { id: ID_LITE, checked: false }));
    assert_eq!(m[17], MenuEntry::Sub(Submenu::Monitor));
    assert_eq!(m[19], MenuEntry::Choice(MenuChoice { id: ID_AUTOSTART, checked: false }));
    assert_eq!(m[21], MenuEntry::Choice(MenuChoice { id: ID_QUIT, checked: false }));
}

#[test]
fn submenus_check_configured_value() {
    let mut c = Config::default();
    c.fit = "center".to_string();
    let fit = submenu_choices(&c, Submenu::Fit);
    assert_eq!(fit.iter().filter(|x| x.checked).count(), 1);
    assert!(fit.iter().any(|x| x.id == ID_FIT_CENTER && x.checked));
    let mon = submenu_choices(&c, Submenu::Monitor);
    assert_eq!(mon, vec![MenuChoice { id: ID_MON_PRIMARY, checked: true }, MenuChoice { id: ID_MON_ALL, checked: false }]);
    c.monitor_mode = "all".to_string();
    let mon = submenu_choices(&c, Submenu::Monitor);
    assert_eq!(mon, vec![MenuChoice { id: ID_MON_PRIMARY, checked: false }, MenuChoice { id: ID_MON_ALL, checked: true }]);
    c.hwdec = "weird".to_string();
    assert!(submenu_choices(&c, Submenu::Hwdec).iter().all(|x| !x.checked));
}

#[test]
fn labels() {
    assert_eq!(choice_label(ID_PICK), "Pick video...");
    assert_eq!(choice_label(ID_VOL_UP), "Volume +10");
    assert_eq!(choice_label(ID_REND_VULKAN), "Vulkan");
    assert_eq!(choice_label(999), "");
    assert_eq!(submenu_label(Submenu::Renderer), "Renderer / API");
}

#[test]
fn toggling_twice_restores() {
    for id in [ID_AUDIO, ID_LITE, ID_VSYNC, ID_SMART, ID_DIM, ID_BATTERY, ID_CLICK, ID_AUTOSTART] {
        let mut c = Config::default();
        apply_menu_choice(&mut c, id);
        apply_menu_choice(&mut c, id);
        let d = Config::default();
        assert_eq!(
            (c.audio, c.lite, c.vsync, c.smart_pause, c.dim_when_hidden, c.pause_on_battery, c.click_through, c.autostart),
            (d.audio, d.lite, d.vsync, d.smart_pause, d.dim_when_hidden, d.pause_on_battery, d.click_through, d.autostart)
        );
    }
}

#[test]
fn toggle_effects() {
    let mut c = Config::default();
    assert!(matches!(apply_menu_choice(&mut c, ID_AUDIO), MenuEffect::Save(Some(Cmd::SetAudio { on: false }))));
    assert!(matches!(apply_menu_choice(&mut c, ID_LITE), MenuEffect::Save(Some(Cmd::SetLite { on: true }))));
    assert!(matches!(apply_menu_choice(&mut c, ID_VSYNC), MenuEffect::Save(Some(Cmd::SetVsync { on: false }))));
    assert!(matches!(apply_menu_choice(&mut c, ID_SMART), MenuEffect::Save(None)));
    assert!(!c.smart_pause);
    assert!(matches!(apply_menu_choice(&mut c, ID_BATTERY), MenuEffect::Save(None)));
    assert!(matches!(apply_menu_choice(&mut c, ID_DIM), MenuEffect::Save(Some(Cmd::Restart))));
    assert!(matches!(apply_menu_choice(&mut c, ID_CLICK), MenuEffect::SaveClickThrough(false)));
    assert!(matches!(apply_menu_choice(&mut c, ID_AUTOSTART), MenuEffect::SaveAutostart(true)));
    assert!(matches!(apply_menu_choice(&mut c, ID_PICK), MenuEffect::PickVideo));
    assert!(matches!(apply_menu_choice(&mut c, ID_QUIT), MenuEffect::Quit));
    assert!(matches!(apply_menu_choice(&mut c, 18), MenuEffect::Nothing));
}

#[test]
fn selections_set_values() {
    let mut c = Config::default();
    assert!(matches!(apply_menu_choice(&mut c, ID_FIT_CENTER), MenuEffect::Save(Some(Cmd::SetFit { ref mode })) if mode == "center"));
    assert_eq!(c.fit, "center");
    assert!(matches!(apply_menu_choice(&mut c, ID_REND_VULKAN), MenuEffect::Save(Some(Cmd::SetRenderer { ref name })) if name == "vulkan"));
    assert_eq!(c.renderer, "vulkan");
    assert!(matches!(apply_menu_choice(&mut c, ID_DOWN_720), MenuEffect::Save(Some(Cmd::SetDownscale { ref mode })) if mode == "720p"));
    assert_eq!(c.downscale, "720p");
    assert!(matches!(apply_menu_choice(&mut c, ID_HW_DXVA2), MenuEffect::Save(Some(Cmd::SetHwdec { ref mode })) if mode == "dxva2-copy"));
    assert_eq!(c.hwdec, "dxva2-copy");
    assert!(matches!(apply_menu_choice(&mut c, ID_MON_ALL), MenuEffect::Save(Some(Cmd::Restart))));
    assert_eq!(c.monitor_mode, "all");
    apply_menu_choice(&mut c, ID_FIT_FILL);
    apply_menu_choice(&mut c, ID_FIT_FILL);
    assert_eq!(c.fit, "fill");
    assert!(submenu_choices(&c, Submenu::Fit).iter().all(|x| x.checked == (x.id == ID_FIT_FILL)));
}

#[test]
fn volume_clamps_to_range() {
    let mut c = Config::default();
    assert!(matches!(apply_menu_choice(&mut c, ID_VOL_UP), MenuEffect::Save(Some(Cmd::SetVolume { v: 100 }))));
    c.volume = 95;
    apply_menu_choice(&mut c, ID_VOL_UP);
    assert_eq!(c.volume, 100);
    c.volume = 5;
    assert!(matches!(apply_menu_choice(&mut c, ID_VOL_DOWN), MenuEffect::Save(Some(Cmd::SetVolume { v: 0 }))));
    c.volume = 40;
    apply_menu_choice(&mut c, ID_VOL_DOWN);
    assert_eq!(c.volume, 30);
    c.volume = 500;
    assert_eq!(change_volume(&mut c, -10), 100);
}

#[test]
fn picking_a_video() {
    let mut c = Config::default();
    let cmd = choose_video(&mut c, "D:\\clips\\sea.mp4".to_string());
    assert!(matches!(cmd, Cmd::Load { ref path } if path == "D:\\clips\\sea.mp4"));
    assert_eq!(c.video.as_deref(), Some("D:\\clips\\sea.mp4"));
}

#[test]
fn title_line() {
    let mut c = Config::default();
    assert_eq!(video_title(&c), "No video selected");
    c.video = Some("/videos/sea.mp4".to_string());
    assert_eq!(video_title(&c), "sea.mp4");
    c.video = Some("C:/clips/sea.mp4".to_string());
    assert_eq!(video_title(&c), "sea.mp4");
    c.video = Some("C:\\clips\\sea.mp4".to_string());
    assert_eq!(video_title(&c), "sea.mp4");
    c.video = Some("C:\\clips\\..".to_string());
    assert_eq!(video_title(&c), "No video selected");
    assert_eq!(title_for(Some("x.mkv".to_string())), "x.mkv");
    assert_eq!(title_for(None), "No video selected");
}

#[test]
fn restarting_choices_end_the_session() {
    for id in [ID_REND_ANGLE, ID_DOWN_540, ID_HW_AUTO, ID_LITE, ID_VSYNC, ID_DIM, ID_MON_ALL, ID_MON_PRIMARY] {
        let mut c = Config::default();
        let cmd = match apply_menu_choice(&mut c, id) {
            MenuEffect::Save(Some(cmd)) => cmd,
            _ => panic!("expected a request"),
        };
        let mut s = Session::new(None);
        assert!(matches!(
            s.on_command(&cmd),
            CmdAction::End(EndAction { result: SessionResult::Retry, save_position: false, destroy_surfaces: true })
        ));
    }
}
