use live_wallpaper::config::{
    config_from_read, config_path, data_dir_for, d_audio, d_battery, d_click, d_dim, d_downscale, d_fit, d_hwdec,
    d_monitor, d_renderer, d_smart, d_volume, d_vsync, pos_path, Config, ConfigRead,
};

fn assert_default(c: &Config) {
    assert!(c.video.is_none());
    assert!(c.audio);
    assert_eq!(c.volume, 100);
    assert_eq!(c.monitor_mode, "primary");
    assert!(!c.autostart);
    assert!(c.click_through);
    assert_eq!(c.fit, "fill");
    assert_eq!(c.renderer, "d3d11");
    assert!(!c.lite);
    assert!(c.smart_pause);
    assert!(c.dim_when_hidden);
    assert!(c.pause_on_battery);
    assert_eq!(c.downscale, "off");
    assert!(c.vsync);
    assert_eq!(c.hwdec, "auto");
}

#[test]
fn default_config_matches_documented_table() {
    assert_default(&Config::default());
}

#[test]
fn field_defaults_match_config_default() {
    assert!(d_audio());
    assert_eq!(d_volume(), 100);
    assert_eq!(d_monitor(), "primary");
    assert!(d_click());
    assert_eq!(d_fit(), "fill");
    assert_eq!(d_renderer(), "d3d11");
    assert!(d_smart());
    assert!(d_dim());
    assert!(d_battery());
    assert_eq!(d_downscale(), "off");
    assert!(d_vsync());
    assert_eq!(d_hwdec(), "auto");
}

#[test]
fn config_path_is_inside_data_dir() {
    let p = config_path("C:\\Users\\me\\AppData\\Roaming\\LiveWallpaper");
    assert_eq!(p, "C:\\Users\\me\\AppData\\Roaming\\LiveWallpaper\\config.json");
}

#[test]
fn pos_path_is_inside_data_dir() {
    assert_eq!(pos_path("data"), "data\\position.json");
}

#[test]
fn data_dir_under_appdata_or_current_dir() {
    let dir = data_dir_for(Some("C:\\Users\\ann\\AppData\\Roaming"));
    assert_eq!(dir, "C:\\Users\\ann\\AppData\\Roaming\\LiveWallpaper");
    assert_eq!(config_path(&dir), "C:\\Users\\ann\\AppData\\Roaming\\LiveWallpaper\\config.json");
    assert_eq!(data_dir_for(None), ".\\LiveWallpaper");
    let verbatim = data_dir_for(Some("\\\\?\\C:\\Users\\ann\\\\"));
    assert_eq!(verbatim, "\\\\?\\C:\\Users\\ann\\LiveWallpaper");
    assert_eq!(pos_path(&verbatim), "\\\\?\\C:\\Users\\ann\\LiveWallpaper\\position.json");
}

#[test]
fn position_and_config_share_the_directory() {
    let dir = data_dir_for(Some("D:\\profile"));
    let c = config_path(&dir);
    let p = pos_path(&dir);
    assert_ne!(c, p);
    assert_eq!(&c[..dir.len() + 1], &p[..dir.len() + 1]);
}

#[test]
fn join_adds_no_separator_where_one_is_not_needed() {
    assert_eq!(config_path("C:\\"), "C:\\config.json");
    assert_eq!(config_path("C:"), "C:config.json");
    assert_eq!(config_path(""), "config.json");
    assert_eq!(config_path("dir/"), "dir/config.json");
    assert_eq!(config_path("1:"), "1:\\config.json");
}

#[test]
fn parsed_config_is_kept() {
    let mut c = Config::default();
    c.volume = 42;
    c.fit = "center".to_string();
    let (cfg, rewrite) = config_from_read(ConfigRead::Parsed(c));
    assert_eq!(cfg.volume, 42);
    assert_eq!(cfg.fit, "center");
    assert!(!rewrite);
}

#[test]
fn invalid_config_is_recreated_with_defaults() {
    let (cfg, rewrite) = config_from_read(ConfigRead::Invalid);
    assert_default(&cfg);
    assert!(rewrite);
}

#[test]
fn missing_config_is_recreated_with_defaults() {
    let (cfg, rewrite) = config_from_read(ConfigRead::Unreadable);
    assert_default(&cfg);
    assert!(rewrite);
}
