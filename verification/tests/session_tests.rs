use live_wallpaper::desktop::{monitor_from_rect, Monitor, Rect};
use live_wallpaper::session::{
    battery_discharging, mpv_error_text, playback_state, player_audio, player_muted, renderer_chain,
    renderer_step, report_error, select_monitors, session_end, EndAction, RendererStep, SessionEnd, working_set_mb, Cmd, CmdAction, Session, SessionResult,
    StatusSample, MPV_END_FILE_REASON_ERROR,
};

fn stalled() -> StatusSample {
    StatusSample { paused: false, idle: false, time_known: true, time_advanced: false }
}

fn moving() -> StatusSample {
    StatusSample { paused: false, idle: false, time_known: true, time_advanced: true }
}

#[test]
fn renderer_chain_starts_with_configured() {
    assert_eq!(renderer_chain("vulkan"), vec!["vulkan", "d3d11", "angle"]);
    assert_eq!(renderer_chain("d3d11"), vec!["d3d11", "angle", "vulkan"]);
    assert_eq!(renderer_chain("angle"), vec!["angle", "d3d11", "vulkan"]);
    assert_eq!(renderer_chain("opengl"), vec!["opengl", "d3d11", "angle", "vulkan"]);
}

#[test]
fn monitor_selection() {
    let left = monitor_from_rect(Rect { left: -1920, top: 0, right: 0, bottom: 1080 }, false);
    let main = monitor_from_rect(Rect { left: 0, top: 0, right: 2560, bottom: 1440 }, true);
    let right = monitor_from_rect(Rect { left: 2560, top: 0, right: 4480, bottom: 1080 }, false);
    let xs = |v: Vec<Monitor>| v.iter().map(|m| (m.x, m.primary)).collect::<Vec<_>>();
    assert_eq!(
        xs(select_monitors("all", vec![left, main, right])),
        vec![(-1920, false), (0, true), (2560, false)]
    );
    assert_eq!(xs(select_monitors("primary", vec![left, main, right])), vec![(0, true)]);
    assert_eq!(xs(select_monitors("", vec![main, right])), vec![(0, true)]);
    assert_eq!(xs(select_monitors("primary", vec![left, right])), vec![(-1920, false)]);
    assert!(select_monitors("primary", Vec::new()).is_empty());
}

#[test]
fn only_first_player_has_audio() {
    assert!(player_audio(true, 0));
    assert!(!player_audio(true, 1));
    assert!(!player_audio(false, 0));
    assert!(!player_muted(true, 0));
    assert!(player_muted(true, 2));
    assert!(player_muted(false, 0));
}

#[test]
fn memory_and_battery() {
    assert_eq!(working_set_mb(0), 0);
    assert_eq!(working_set_mb(150 * 1024 * 1024 + 5), 150);
    assert!(battery_discharging(1, 0));
    assert!(!battery_discharging(0x80, 0));
    assert!(!battery_discharging(1, 1));
}

#[test]
fn report_error_notifies_once_per_message() {
    let mut state: Option<String> = None;
    assert!(report_error(&mut state, "a".to_string()));
    assert_eq!(state.as_deref(), Some("a"));
    assert!(!report_error(&mut state, "a".to_string()));
    assert!(report_error(&mut state, "b".to_string()));
    assert_eq!(state.as_deref(), Some("b"));
}

#[test]
fn commands_map_to_actions() {
    let mut s = Session::new(None);
    match s.on_command(&Cmd::Load { path: "v.mp4".to_string() }) {
        CmdAction::LoadFile(p) => assert_eq!(p, "v.mp4"),
        _ => panic!("expected a load"),
    }
    assert_eq!(s.current_path().as_deref(), Some("v.mp4"));
    assert!(matches!(s.on_command(&Cmd::SetAudio { on: false }), CmdAction::SetAudio(false)));
    assert!(matches!(s.on_command(&Cmd::SetVolume { v: 30 }), CmdAction::SetVolume(30)));
    assert!(matches!(s.on_command(&Cmd::SetFit { mode: "fit".to_string() }), CmdAction::SetFit(ref m) if m == "fit"));
    for cmd in [
        Cmd::SetRenderer { name: "vulkan".to_string() },
        Cmd::SetLite { on: true },
        Cmd::SetVsync { on: false },
        Cmd::SetDownscale { mode: "720p".to_string() },
        Cmd::SetHwdec { mode: "off".to_string() },
        Cmd::Restart,
    ] {
        assert!(matches!(
            s.on_command(&cmd),
            CmdAction::End(EndAction { result: SessionResult::Retry, save_position: false, destroy_surfaces: true })
        ));
    }
    assert!(matches!(
        s.on_command(&Cmd::Quit),
        CmdAction::End(EndAction { result: SessionResult::Quit, save_position: true, destroy_surfaces: true })
    ));
    assert_eq!(s.current_path().as_deref(), Some("v.mp4"));
}

#[test]
fn smart_pause_pauses_and_resumes() {
    let mut s = Session::new(None);
    let c = s.on_visibility_check(true, true, true, true, false);
    assert_eq!(c.pause, Some(true));
    assert_eq!(c.blur, Some(true));
    let c = s.on_visibility_check(true, true, true, true, false);
    assert_eq!(c.pause, None);
    assert_eq!(c.blur, None);
    let c = s.on_visibility_check(true, true, true, false, false);
    assert_eq!(c.pause, Some(false));
    assert_eq!(c.blur, Some(false));
}

#[test]
fn battery_pause_without_blur() {
    let mut s = Session::new(None);
    let c = s.on_visibility_check(true, true, true, false, true);
    assert_eq!(c.pause, Some(true));
    assert_eq!(c.blur, None);
    let c = s.on_visibility_check(false, true, false, true, true);
    assert_eq!(c.pause, Some(false));
}

#[test]
fn blur_disabled_sends_blur_off_when_hidden() {
    let mut s = Session::new(None);
    let c = s.on_visibility_check(true, false, false, true, false);
    assert_eq!(c.pause, Some(true));
    assert_eq!(c.blur, Some(false));
}

#[test]
fn stuck_reported_on_fourth_stalled_sample() {
    let mut s = Session::new(None);
    assert!(s.on_file_loaded(Some("yuv420p".to_string()), Some("a.mp4".to_string())).is_none());
    assert!(!s.on_status_sample(moving()));
    assert!(!s.on_status_sample(stalled()));
    assert!(!s.on_status_sample(stalled()));
    assert!(!s.on_status_sample(stalled()));
    assert!(s.on_status_sample(stalled()));
    assert_eq!(s.watch().streak, 0);
    let r = s.report_stuck(Some("a.mp4".to_string()));
    assert_eq!(r.message, "playback appears stuck (time not advancing): a.mp4");
    assert!(r.notify);
    let r = s.report_stuck(Some("a.mp4".to_string()));
    assert!(!r.notify);
    let r = s.report_stuck(None);
    assert_eq!(r.message, "playback appears stuck (time not advancing): ?");
}

#[test]
fn paused_sample_resets_streak() {
    let mut s = Session::new(None);
    s.on_file_loaded(Some("v".to_string()), None);
    s.on_status_sample(moving());
    s.on_status_sample(stalled());
    s.on_status_sample(stalled());
    assert_eq!(s.watch().streak, 2);
    assert!(!s.on_status_sample(StatusSample { paused: true, ..stalled() }));
    assert_eq!(s.watch().streak, 0);
    assert!(!s.watch().has_last_time);
}

#[test]
fn no_samples_count_before_a_file_loads() {
    let mut s = Session::new(None);
    for _ in 0..10 {
        assert!(!s.on_status_sample(stalled()));
    }
}

#[test]
fn audio_only_file_is_reported() {
    let mut s = Session::new(Some("song.mp3".to_string()));
    let r = s.on_file_loaded(Some(String::new()), Some(String::new())).unwrap();
    assert_eq!(r.message, "no video stream found in: song.mp3 (audio-only file?)");
    assert!(r.notify);
    let r = s.on_file_loaded(None, Some("x.mp3".to_string())).unwrap();
    assert_eq!(r.message, "no video stream found in: x.mp3 (audio-only file?)");
    assert!(s.on_file_loaded(Some("h264".to_string()), None).is_none());
    assert!(s.error_state().is_none());
}

#[test]
fn failed_load_is_reported() {
    let mut s = Session::new(None);
    s.on_file_loaded(Some("v".to_string()), None);
    assert!(s.on_end_file(0, Some("a".to_string())).is_none());
    assert!(s.watch().file_loaded);
    let r = s.on_end_file(MPV_END_FILE_REASON_ERROR, None).unwrap();
    assert_eq!(r.message, "video failed to load (unsupported or corrupt): ?");
    assert!(!s.watch().file_loaded);
}

#[test]
fn tip_text_shows_state_or_error() {
    let mut s = Session::new(None);
    assert_eq!(playback_state(true, true), "idle");
    assert_eq!(playback_state(false, true), "paused");
    assert_eq!(playback_state(false, false), "playing");
    assert_eq!(s.tip_text("playing", "30", 85), "Live Wallpaper | playing | 30 fps | 85 MB");
    s.on_end_file(MPV_END_FILE_REASON_ERROR, Some("b.mkv".to_string()));
    assert_eq!(
        s.tip_text("playing", "30", 85),
        "Live Wallpaper | ERROR: video failed to load (unsupported or corrupt): b.mkv"
    );
}

#[test]
fn status_sample_every_sixty_iterations() {
    let mut s = Session::new(None);
    let mut due = Vec::new();
    for _ in 0..180 {
        if s.tick() {
            due.push(s.iteration());
        }
    }
    assert_eq!(due, vec![60, 120, 180]);
}

#[test]
fn mpv_error_texts() {
    assert_eq!(mpv_error_text(-5, None), "mpv error -5");
    assert_eq!(mpv_error_text(-5, Some("option not found".to_string())), "option not found");
}

#[test]
fn sessions_that_stop_on_their_own() {
    let closed = session_end(SessionEnd::ChannelClosed);
    assert_eq!(closed.result, SessionResult::Quit);
    assert!(closed.save_position);
    assert!(closed.destroy_surfaces);
    for why in [SessionEnd::NoHost, SessionEnd::NoSurfaces] {
        let e = session_end(why);
        assert_eq!(e.result, SessionResult::Retry);
        assert!(!e.save_position);
        assert!(!e.destroy_surfaces);
    }
    for why in [SessionEnd::NoPlayers, SessionEnd::SurfaceDestroyed, SessionEnd::PlayerShutdown] {
        let e = session_end(why);
        assert_eq!(e.result, SessionResult::Retry);
        assert!(!e.save_position);
        assert!(e.destroy_surfaces);
    }
}

#[test]
fn renderer_fallback_steps() {
    assert_eq!(renderer_step(4, 0, true), RendererStep::Use(0));
    assert_eq!(renderer_step(4, 0, false), RendererStep::Try(1));
    assert_eq!(renderer_step(4, 2, true), RendererStep::Use(2));
    assert_eq!(renderer_step(4, 3, false), RendererStep::GiveUp);
}

#[test]
fn renderer_fallback_uses_first_that_starts() {
    let run = |started: &[bool]| {
        let mut i = 0;
        loop {
            match renderer_step(started.len(), i, started[i]) {
                RendererStep::Use(k) => return Some(k),
                RendererStep::Try(k) => i = k,
                RendererStep::GiveUp => return None,
            }
        }
    };
    assert_eq!(run(&[false, false, true, true]), Some(2));
    assert_eq!(run(&[true, false]), Some(0));
    assert_eq!(run(&[false, false, false]), None);
}
