use vstd::prelude::*;
use crate::paths::{join_component, join_prefix, path_join};

verus! {

/// The settings of the wallpaper, as stored in its configuration file.
#[derive(Clone)]
pub struct Config {
    pub video: Option<String>,
    pub audio: bool,
    pub volume: i64,
    pub monitor_mode: String,
    pub autostart: bool,
    pub click_through: bool,
    pub fit: String,
    pub renderer: String,
    pub lite: bool,
    pub smart_pause: bool,
    pub dim_when_hidden: bool,
    pub pause_on_battery: bool,
    pub downscale: String,
    pub vsync: bool,
    pub hwdec: String,
}

/// The settings as mathematical values: every text field by its characters.
pub struct ConfigView {
    pub video: Option<Seq<char>>,
    pub audio: bool,
    pub volume: i64,
    pub monitor_mode: Seq<char>,
    pub autostart: bool,
    pub click_through: bool,
    pub fit: Seq<char>,
    pub renderer: Seq<char>,
    pub lite: bool,
    pub smart_pause: bool,
    pub dim_when_hidden: bool,
    pub pause_on_battery: bool,
    pub downscale: Seq<char>,
    pub vsync: bool,
    pub hwdec: Seq<char>,
}

impl View for Config {
    type V = ConfigView;

    open spec fn view(&self) -> ConfigView {
        ConfigView {
            video: match self.video {
                Some(v) => Some(v@),
                None => None,
            },
            audio: self.audio,
            volume: self.volume,
            monitor_mode: self.monitor_mode@,
            autostart: self.autostart,
            click_through: self.click_through,
            fit: self.fit@,
            renderer: self.renderer@,
            lite: self.lite,
            smart_pause: self.smart_pause,
            dim_when_hidden: self.dim_when_hidden,
            pause_on_battery: self.pause_on_battery,
            downscale: self.downscale@,
            vsync: self.vsync,
            hwdec: self.hwdec@,
        }
    }
}

/// The default settings: no video, audio on at volume 100 on the primary monitor,
/// clicks passing through, fill fit, Direct3D 11, smart pause and blur and battery
/// pause on, no downscale, v-sync on, automatic hardware decode, no autostart, no
/// lite mode.
pub open spec fn default_config() -> ConfigView {
    ConfigView {
        video: None,
        audio: true,
        volume: 100,
        monitor_mode: "primary"@,
        autostart: false,
        click_through: true,
        fit: "fill"@,
        renderer: "d3d11"@,
        lite: false,
        smart_pause: true,
        dim_when_hidden: true,
        pause_on_battery: true,
        downscale: "off"@,
        vsync: true,
        hwdec: "auto"@,
    }
}

impl Default for Config {
    fn default() -> (c: Config)
        ensures
            c@ == default_config(),
    {
        Config {
            video: None,
            audio: d_audio(),
            volume: d_volume(),
            monitor_mode: d_monitor(),
            autostart: false,
            click_through: d_click(),
            fit: d_fit(),
            renderer: d_renderer(),
            lite: false,
            smart_pause: d_smart(),
            dim_when_hidden: d_dim(),
            pause_on_battery: d_battery(),
            downscale: d_downscale(),
            vsync: d_vsync(),
            hwdec: d_hwdec(),
        }
    }
}

/// Default of `audio` where the file leaves it out.
pub fn d_audio() -> (r: bool)
    ensures
        r,
{
    true
}

/// Default of `volume` where the file leaves it out.
pub fn d_volume() -> (r: i64)
    ensures
        r == 100,
{
    100
}

/// Default of `monitor_mode` where the file leaves it out.
pub fn d_monitor() -> (r: String)
    ensures
        r@ == "primary"@,
{
    String::from_str("primary")
}

/// Default of `click_through` where the file leaves it out.
pub fn d_click() -> (r: bool)
    ensures
        r,
{
    true
}

/// Default of `fit` where the file leaves it out.
pub fn d_fit() -> (r: String)
    ensures
        r@ == "fill"@,
{
    String::from_str("fill")
}

/// Default of `renderer` where the file leaves it out.
pub fn d_renderer() -> (r: String)
    ensures
        r@ == "d3d11"@,
{
    String::from_str("d3d11")
}

/// Default of `smart_pause` where the file leaves it out.
pub fn d_smart() -> (r: bool)
    ensures
        r,
{
    true
}

/// Default of `dim_when_hidden` where the file leaves it out.
pub fn d_dim() -> (r: bool)
    ensures
        r,
{
    true
}

/// Default of `pause_on_battery` where the file leaves it out.
pub fn d_battery() -> (r: bool)
    ensures
        r,
{
    true
}

/// Default of `downscale` where the file leaves it out.
pub fn d_downscale() -> (r: String)
    ensures
        r@ == "off"@,
{
    String::from_str("off")
}

/// Default of `vsync` where the file leaves it out.
pub fn d_vsync() -> (r: bool)
    ensures
        r,
{
    true
}

/// Default of `hwdec` where the file leaves it out.
pub fn d_hwdec() -> (r: String)
    ensures
        r@ == "auto"@,
{
    String::from_str("auto")
}

/// The data directory under a base directory (the `APPDATA` folder, or the
/// current directory `.` where none is given).
pub open spec fn data_dir_spec(appdata: Option<Seq<char>>) -> Seq<char> {
    path_join(
        match appdata {
            Some(a) => a,
            None => "."@,
        },
        "LiveWallpaper"@,
    )
}

/// The program's data directory: `LiveWallpaper` inside the `APPDATA` folder, or
/// inside the current directory where that folder is not known.
pub fn data_dir_for(appdata: Option<&str>) -> (r: String)
    ensures
        r@ == data_dir_spec(match appdata {
            Some(a) => Some(a@),
            None => None,
        }),
{
    proof {
        reveal_strlit("LiveWallpaper");
        reveal_strlit(".");
    }
    match appdata {
        Some(a) => join_component(a, "LiveWallpaper"),
        None => join_component(".", "LiveWallpaper"),
    }
}

/// The configuration file inside the data directory.
pub fn config_path(data_dir: &str) -> (r: String)
    ensures
        r@ == path_join(data_dir@, "config.json"@),
{
    proof {
        reveal_strlit("config.json");
    }
    join_component(data_dir, "config.json")
}

/// The playback-position file inside the data directory.
pub fn pos_path(data_dir: &str) -> (r: String)
    ensures
        r@ == path_join(data_dir@, "position.json"@),
{
    proof {
        reveal_strlit("position.json");
    }
    join_component(data_dir, "position.json")
}

/// The configuration file and the position file lie side by side in the data
/// directory: both are the same directory prefix followed by their own names, and
/// they are different files.
pub proof fn law_data_files_side_by_side(dir: Seq<char>)
    ensures
        path_join(dir, "config.json"@) == join_prefix(dir) + "config.json"@,
        path_join(dir, "position.json"@) == join_prefix(dir) + "position.json"@,
        path_join(dir, "config.json"@) != path_join(dir, "position.json"@),
{
    reveal_strlit("config.json");
    reveal_strlit("position.json");
    assert(path_join(dir, "config.json"@).len() != path_join(dir, "position.json"@).len());
}

/// What reading and parsing the configuration file gave.
pub enum ConfigRead {
    /// The file could not be read (for instance, it does not exist yet).
    Unreadable,
    /// The file was read but does not hold a valid configuration.
    Invalid,
    /// The file held this configuration.
    Parsed(Config),
}

/// The configuration to start with, and whether the defaults must be written out:
/// a parsed file is used as it is; a missing or invalid file is recreated with the
/// defaults.
pub fn config_from_read(read: ConfigRead) -> (r: (Config, bool))
    ensures
        match read {
            ConfigRead::Parsed(c) => r.0 == c && !r.1,
            ConfigRead::Unreadable => r.0@ == default_config() && r.1,
            ConfigRead::Invalid => r.0@ == default_config() && r.1,
        },
{
    match read {
        ConfigRead::Parsed(c) => (c, false),
        ConfigRead::Unreadable => (Config::default(), true),
        ConfigRead::Invalid => (Config::default(), true),
    }
}

} // verus!
