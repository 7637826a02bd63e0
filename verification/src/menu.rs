use vstd::prelude::*;
use crate::config::{Config, ConfigView};
use crate::paths::{file_name, file_name_spec};
use crate::session::{Cmd, needs_restart};
use crate::text::same_text;

verus! {

pub const ID_PICK: usize = 1;
pub const ID_AUDIO: usize = 2;
pub const ID_VOL_UP: usize = 3;
pub const ID_VOL_DOWN: usize = 4;
pub const ID_MON_PRIMARY: usize = 5;
pub const ID_MON_ALL: usize = 6;
pub const ID_CLICK: usize = 7;
pub const ID_AUTOSTART: usize = 8;
pub const ID_QUIT: usize = 9;
pub const ID_FIT_FILL: usize = 10;
pub const ID_FIT_FIT: usize = 11;
pub const ID_FIT_CENTER: usize = 12;
pub const ID_FIT_STRETCH: usize = 13;
pub const ID_REND_D3D11: usize = 14;
pub const ID_REND_VULKAN: usize = 15;
pub const ID_LITE: usize = 16;
pub const ID_SMART: usize = 17;
pub const ID_REND_ANGLE: usize = 19;
pub const ID_DOWN_OFF: usize = 20;
pub const ID_DOWN_720: usize = 21;
pub const ID_DOWN_540: usize = 22;
pub const ID_VSYNC: usize = 23;
pub const ID_HW_AUTO: usize = 24;
pub const ID_HW_D3D11VA: usize = 25;
pub const ID_HW_DXVA2: usize = 26;
pub const ID_HW_OFF: usize = 27;
pub const ID_DIM: usize = 28;
pub const ID_BATTERY: usize = 29;

/// The lowest and highest volume the volume entries can set (volume runs from 0 to
/// 100).
pub const VOLUME_MIN: i64 = 0;
pub const VOLUME_MAX: i64 = 100;
/// How much one volume entry changes the volume.
pub const VOLUME_STEP: i64 = 10;

/// A menu entry that can be chosen, and whether it shows a check mark.
#[derive(PartialEq, Eq, Structural, Clone, Copy, Debug)]
pub struct MenuChoice {
    pub id: usize,
    pub checked: bool,
}

/// The submenus of the tray menu.
#[derive(PartialEq, Eq, Structural, Clone, Copy, Debug)]
pub enum Submenu {
    Fit,
    Renderer,
    Downscale,
    Hwdec,
    Monitor,
}

/// One line of the tray menu.
#[derive(PartialEq, Eq, Structural, Clone, Copy, Debug)]
pub enum MenuEntry {
    /// The current video's name, grayed out.
    Title,
    Separator,
    Choice(MenuChoice),
    Sub(Submenu),
}

/// The label of each menu choice.
pub open spec fn choice_label_spec(id: usize) -> Seq<char> {
    if id == ID_PICK { "Pick video..."@ }
    else if id == ID_AUDIO { "Play audio"@ }
    else if id == ID_VOL_UP { "Volume +10"@ }
    else if id == ID_VOL_DOWN { "Volume -10"@ }
    else if id == ID_MON_PRIMARY { "Primary monitor"@ }
    else if id == ID_MON_ALL { "All monitors"@ }
    else if id == ID_CLICK { "Click through desktop"@ }
    else if id == ID_AUTOSTART { "Start with Windows"@ }
    else if id == ID_QUIT { "Quit"@ }
    else if id == ID_FIT_FILL { "Fill (crop to screen)"@ }
    else if id == ID_FIT_FIT { "Fit (whole video visible)"@ }
    else if id == ID_FIT_CENTER { "Center (original size)"@ }
    else if id == ID_FIT_STRETCH { "Stretch (fill and distort)"@ }
    else if id == ID_REND_D3D11 { "Direct3D 11 (recommended)"@ }
    else if id == ID_REND_VULKAN { "Vulkan"@ }
    else if id == ID_REND_ANGLE { "ANGLE (OpenGL over D3D11)"@ }
    else if id == ID_LITE { "Lite mode (low GPU/RAM)"@ }
    else if id == ID_SMART { "Pause when desktop hidden (fullscreen/maximized)"@ }
    else if id == ID_DOWN_OFF { "Off (full resolution)"@ }
    else if id == ID_DOWN_720 { "Max 720p (faster, less RAM)"@ }
    else if id == ID_DOWN_540 { "Max 540p (fastest, least RAM)"@ }
    else if id == ID_VSYNC { "V-sync (smooth playback)"@ }
    else if id == ID_HW_AUTO { "Auto (recommended)"@ }
    else if id == ID_HW_D3D11VA { "d3d11va-copy"@ }
    else if id == ID_HW_DXVA2 { "dxva2-copy"@ }
    else if id == ID_HW_OFF { "Off (software decode)"@ }
    else if id == ID_DIM { "Blur when hidden (smooth fade)"@ }
    else if id == ID_BATTERY { "Pause on battery power"@ }
    else { ""@ }
}

/// The label of a menu choice.
pub fn choice_label(id: usize) -> (r: &'static str)
    ensures
        r@ == choice_label_spec(id),
{
    if id == ID_PICK { "Pick video..." }
    else if id == ID_AUDIO { "Play audio" }
    else if id == ID_VOL_UP { "Volume +10" }
    else if id == ID_VOL_DOWN { "Volume -10" }
    else if id == ID_MON_PRIMARY { "Primary monitor" }
    else if id == ID_MON_ALL { "All monitors" }
    else if id == ID_CLICK { "Click through desktop" }
    else if id == ID_AUTOSTART { "Start with Windows" }
    else if id == ID_QUIT { "Quit" }
    else if id == ID_FIT_FILL { "Fill (crop to screen)" }
    else if id == ID_FIT_FIT { "Fit (whole video visible)" }
    else if id == ID_FIT_CENTER { "Center (original size)" }
    else if id == ID_FIT_STRETCH { "Stretch (fill and distort)" }
    else if id == ID_REND_D3D11 { "Direct3D 11 (recommended)" }
    else if id == ID_REND_VULKAN { "Vulkan" }
    else if id == ID_REND_ANGLE { "ANGLE (OpenGL over D3D11)" }
    else if id == ID_LITE { "Lite mode (low GPU/RAM)" }
    else if id == ID_SMART { "Pause when desktop hidden (fullscreen/maximized)" }
    else if id == ID_DOWN_OFF { "Off (full resolution)" }
    else if id == ID_DOWN_720 { "Max 720p (faster, less RAM)" }
    else if id == ID_DOWN_540 { "Max 540p (fastest, least RAM)" }
    else if id == ID_VSYNC { "V-sync (smooth playback)" }
    else if id == ID_HW_AUTO { "Auto (recommended)" }
    else if id == ID_HW_D3D11VA { "d3d11va-copy" }
    else if id == ID_HW_DXVA2 { "dxva2-copy" }
    else if id == ID_HW_OFF { "Off (software decode)" }
    else if id == ID_DIM { "Blur when hidden (smooth fade)" }
    else if id == ID_BATTERY { "Pause on battery power" }
    else { "" }
}

/// The label of a submenu.
pub open spec fn submenu_label_spec(which: Submenu) -> Seq<char> {
    match which {
        Submenu::Fit => "Video fit"@,
        Submenu::Renderer => "Renderer / API"@,
        Submenu::Downscale => "Decode downscale"@,
        Submenu::Hwdec => "Hardware decode"@,
        Submenu::Monitor => "Monitor mode"@,
    }
}

/// The label of a submenu.
pub fn submenu_label(which: Submenu) -> (r: &'static str)
    ensures
        r@ == submenu_label_spec(which),
{
    match which {
        Submenu::Fit => "Video fit",
        Submenu::Renderer => "Renderer / API",
        Submenu::Downscale => "Decode downscale",
        Submenu::Hwdec => "Hardware decode",
        Submenu::Monitor => "Monitor mode",
    }
}

/// The setting a submenu choice selects (the fit mode, renderer, downscale, hardware
/// decode or monitor mode it stands for).
pub open spec fn choice_value(id: usize) -> Seq<char> {
    if id == ID_FIT_FILL { "fill"@ }
    else if id == ID_FIT_FIT { "fit"@ }
    else if id == ID_FIT_CENTER { "center"@ }
    else if id == ID_FIT_STRETCH { "stretch"@ }
    else if id == ID_REND_D3D11 { "d3d11"@ }
    else if id == ID_REND_VULKAN { "vulkan"@ }
    else if id == ID_REND_ANGLE { "angle"@ }
    else if id == ID_DOWN_OFF { "off"@ }
    else if id == ID_DOWN_720 { "720p"@ }
    else if id == ID_DOWN_540 { "540p"@ }
    else if id == ID_HW_AUTO { "auto"@ }
    else if id == ID_HW_D3D11VA { "d3d11va-copy"@ }
    else if id == ID_HW_DXVA2 { "dxva2-copy"@ }
    else if id == ID_HW_OFF { "off"@ }
    else if id == ID_MON_PRIMARY { "primary"@ }
    else if id == ID_MON_ALL { "all"@ }
    else { ""@ }
}

/// The choices of each submenu, in order.
pub open spec fn submenu_ids(which: Submenu) -> Seq<usize> {
    match which {
        Submenu::Fit => seq![ID_FIT_FILL, ID_FIT_FIT, ID_FIT_CENTER, ID_FIT_STRETCH],
        Submenu::Renderer => seq![ID_REND_D3D11, ID_REND_VULKAN, ID_REND_ANGLE],
        Submenu::Downscale => seq![ID_DOWN_OFF, ID_DOWN_720, ID_DOWN_540],
        Submenu::Hwdec => seq![ID_HW_AUTO, ID_HW_D3D11VA, ID_HW_DXVA2, ID_HW_OFF],
        Submenu::Monitor => seq![ID_MON_PRIMARY, ID_MON_ALL],
    }
}

/// Whether a submenu choice shows a check mark: the one whose setting is the
/// configured one; for the monitor mode, "All monitors" exactly in "all" mode and
/// "Primary monitor" in every other mode.
pub open spec fn choice_checked(cfg: ConfigView, id: usize) -> bool {
    if id == ID_FIT_FILL || id == ID_FIT_FIT || id == ID_FIT_CENTER || id == ID_FIT_STRETCH {
        cfg.fit == choice_value(id)
    } else if id == ID_REND_D3D11 || id == ID_REND_VULKAN || id == ID_REND_ANGLE {
        cfg.renderer == choice_value(id)
    } else if id == ID_DOWN_OFF || id == ID_DOWN_720 || id == ID_DOWN_540 {
        cfg.downscale == choice_value(id)
    } else if id == ID_HW_AUTO || id == ID_HW_D3D11VA || id == ID_HW_DXVA2 || id == ID_HW_OFF {
        cfg.hwdec == choice_value(id)
    } else if id == ID_MON_ALL {
        cfg.monitor_mode == "all"@
    } else if id == ID_MON_PRIMARY {
        cfg.monitor_mode != "all"@
    } else if id == ID_AUDIO {
        cfg.audio
    } else if id == ID_LITE {
        cfg.lite
    } else if id == ID_VSYNC {
        cfg.vsync
    } else if id == ID_SMART {
        cfg.smart_pause
    } else if id == ID_DIM {
        cfg.dim_when_hidden
    } else if id == ID_BATTERY {
        cfg.pause_on_battery
    } else if id == ID_CLICK {
        cfg.click_through
    } else if id == ID_AUTOSTART {
        cfg.autostart
    } else {
        false
    }
}

/// A submenu's choices with their check marks.
pub open spec fn submenu_spec(cfg: ConfigView, which: Submenu) -> Seq<MenuChoice> {
    submenu_ids(which).map_values(|id: usize| MenuChoice { id, checked: choice_checked(cfg, id) })
}

/// The tray menu's lines, top to bottom.
pub open spec fn menu_spec(cfg: ConfigView) -> Seq<MenuEntry> {
    let c = |id: usize| MenuEntry::Choice(MenuChoice { id, checked: choice_checked(cfg, id) });
    seq![
        MenuEntry::Title,
        MenuEntry::Separator,
        c(ID_PICK),
        MenuEntry::Separator,
        c(ID_AUDIO),
        c(ID_VOL_UP),
        c(ID_VOL_DOWN),
        MenuEntry::Separator,
        MenuEntry::Sub(Submenu::Fit),
        MenuEntry::Sub(Submenu::Renderer),
        MenuEntry::Sub(Submenu::Downscale),
        MenuEntry::Sub(Submenu::Hwdec),
        c(ID_LITE),
        c(ID_VSYNC),
        c(ID_SMART),
        c(ID_DIM),
        c(ID_BATTERY),
        MenuEntry::Sub(Submenu::Monitor),
        c(ID_CLICK),
        c(ID_AUTOSTART),
        MenuEntry::Separator,
        c(ID_QUIT),
    ]
}

/// Whether a choice is checked for the given configuration.
fn checked(cfg: &Config, id: usize) -> (r: bool)
    ensures
        r == choice_checked(cfg@, id),
{
    proof {
        reveal_strlit("all");
    }
    if id == ID_FIT_FILL {
        same_text(cfg.fit.as_str(), "fill")
    } else if id == ID_FIT_FIT {
        same_text(cfg.fit.as_str(), "fit")
    } else if id == ID_FIT_CENTER {
        same_text(cfg.fit.as_str(), "center")
    } else if id == ID_FIT_STRETCH {
        same_text(cfg.fit.as_str(), "stretch")
    } else if id == ID_REND_D3D11 {
        same_text(cfg.renderer.as_str(), "d3d11")
    } else if id == ID_REND_VULKAN {
        same_text(cfg.renderer.as_str(), "vulkan")
    } else if id == ID_REND_ANGLE {
        same_text(cfg.renderer.as_str(), "angle")
    } else if id == ID_DOWN_OFF {
        same_text(cfg.downscale.as_str(), "off")
    } else if id == ID_DOWN_720 {
        same_text(cfg.downscale.as_str(), "720p")
    } else if id == ID_DOWN_540 {
        same_text(cfg.downscale.as_str(), "540p")
    } else if id == ID_HW_AUTO {
        same_text(cfg.hwdec.as_str(), "auto")
    } else if id == ID_HW_D3D11VA {
        same_text(cfg.hwdec.as_str(), "d3d11va-copy")
    } else if id == ID_HW_DXVA2 {
        same_text(cfg.hwdec.as_str(), "dxva2-copy")
    } else if id == ID_HW_OFF {
        same_text(cfg.hwdec.as_str(), "off")
    } else if id == ID_MON_ALL {
        same_text(cfg.monitor_mode.as_str(), "all")
    } else if id == ID_MON_PRIMARY {
        !same_text(cfg.monitor_mode.as_str(), "all")
    } else if id == ID_AUDIO {
        cfg.audio
    } else if id == ID_LITE {
        cfg.lite
    } else if id == ID_VSYNC {
        cfg.vsync
    } else if id == ID_SMART {
        cfg.smart_pause
    } else if id == ID_DIM {
        cfg.dim_when_hidden
    } else if id == ID_BATTERY {
        cfg.pause_on_battery
    } else if id == ID_CLICK {
        cfg.click_through
    } else if id == ID_AUTOSTART {
        cfg.autostart
    } else {
        false
    }
}

fn choice(cfg: &Config, id: usize) -> (r: MenuChoice)
    ensures
        r == (MenuChoice { id, checked: choice_checked(cfg@, id) }),
{
    MenuChoice { id, checked: checked(cfg, id) }
}

/// The choices of a submenu with their check marks.
pub fn submenu_choices(cfg: &Config, which: Submenu) -> (r: Vec<MenuChoice>)
    ensures
        r@ == submenu_spec(cfg@, which),
{
    let mut out: Vec<MenuChoice> = Vec::new();
    match which {
        Submenu::Fit => {
            out.push(choice(cfg, ID_FIT_FILL));
            out.push(choice(cfg, ID_FIT_FIT));
            out.push(choice(cfg, ID_FIT_CENTER));
            out.push(choice(cfg, ID_FIT_STRETCH));
        },
        Submenu::Renderer => {
            out.push(choice(cfg, ID_REND_D3D11));
            out.push(choice(cfg, ID_REND_VULKAN));
            out.push(choice(cfg, ID_REND_ANGLE));
        },
        Submenu::Downscale => {
            out.push(choice(cfg, ID_DOWN_OFF));
            out.push(choice(cfg, ID_DOWN_720));
            out.push(choice(cfg, ID_DOWN_540));
        },
        Submenu::Hwdec => {
            out.push(choice(cfg, ID_HW_AUTO));
            out.push(choice(cfg, ID_HW_D3D11VA));
            out.push(choice(cfg, ID_HW_DXVA2));
            out.push(choice(cfg, ID_HW_OFF));
        },
        Submenu::Monitor => {
            out.push(choice(cfg, ID_MON_PRIMARY));
            out.push(choice(cfg, ID_MON_ALL));
        },
    }
    assert(out@ =~= submenu_spec(cfg@, which));
    out
}

/// The tray menu's lines, top to bottom, with the check marks the configuration gives.
pub fn menu_entries(cfg: &Config) -> (r: Vec<MenuEntry>)
    ensures
        r@ == menu_spec(cfg@),
{
    let mut m: Vec<MenuEntry> = Vec::new();
    m.push(MenuEntry::Title);
    m.push(MenuEntry::Separator);
    m.push(MenuEntry::Choice(choice(cfg, ID_PICK)));
    m.push(MenuEntry::Separator);
    m.push(MenuEntry::Choice(choice(cfg, ID_AUDIO)));
    m.push(MenuEntry::Choice(choice(cfg, ID_VOL_UP)));
    m.push(MenuEntry::Choice(choice(cfg, ID_VOL_DOWN)));
    m.push(MenuEntry::Separator);
    m.push(MenuEntry::Sub(Submenu::Fit));
    m.push(MenuEntry::Sub(Submenu::Renderer));
    m.push(MenuEntry::Sub(Submenu::Downscale));
    m.push(MenuEntry::Sub(Submenu::Hwdec));
    m.push(MenuEntry::Choice(choice(cfg, ID_LITE)));
    m.push(MenuEntry::Choice(choice(cfg, ID_VSYNC)));
    m.push(MenuEntry::Choice(choice(cfg, ID_SMART)));
    m.push(MenuEntry::Choice(choice(cfg, ID_DIM)));
    m.push(MenuEntry::Choice(choice(cfg, ID_BATTERY)));
    m.push(MenuEntry::Sub(Submenu::Monitor));
    m.push(MenuEntry::Choice(choice(cfg, ID_CLICK)));
    m.push(MenuEntry::Choice(choice(cfg, ID_AUTOSTART)));
    m.push(MenuEntry::Separator);
    m.push(MenuEntry::Choice(choice(cfg, ID_QUIT)));
    assert(m@ =~= menu_spec(cfg@));
    m
}

/// A volume moved by `delta` and kept between the lowest and highest volume.
pub open spec fn clamp_volume(v: int) -> int {
    if v < VOLUME_MIN { VOLUME_MIN as int } else if v > VOLUME_MAX { VOLUME_MAX as int } else { v }
}

/// Whether a choice switches a setting on or off.
pub open spec fn is_toggle(id: usize) -> bool {
    id == ID_AUDIO || id == ID_LITE || id == ID_VSYNC || id == ID_SMART || id == ID_DIM
        || id == ID_BATTERY || id == ID_CLICK || id == ID_AUTOSTART
}

/// Whether a choice selects one value of a setting (a fit mode, renderer, downscale,
/// hardware decode or monitor mode).
pub open spec fn is_selection(id: usize) -> bool {
    id == ID_FIT_FILL || id == ID_FIT_FIT || id == ID_FIT_CENTER || id == ID_FIT_STRETCH
        || id == ID_REND_D3D11 || id == ID_REND_VULKAN || id == ID_REND_ANGLE
        || id == ID_DOWN_OFF || id == ID_DOWN_720 || id == ID_DOWN_540
        || id == ID_HW_AUTO || id == ID_HW_D3D11VA || id == ID_HW_DXVA2 || id == ID_HW_OFF
        || id == ID_MON_PRIMARY || id == ID_MON_ALL
}

/// The settings after a menu choice: a toggle flips its setting, a selection sets
/// its setting to the value it stands for, the volume entries move the volume by ten
/// within 0..=100; other choices change nothing.
pub open spec fn menu_config(c: ConfigView, id: usize) -> ConfigView {
    if id == ID_AUDIO { ConfigView { audio: !c.audio, ..c } }
    else if id == ID_LITE { ConfigView { lite: !c.lite, ..c } }
    else if id == ID_VSYNC { ConfigView { vsync: !c.vsync, ..c } }
    else if id == ID_SMART { ConfigView { smart_pause: !c.smart_pause, ..c } }
    else if id == ID_DIM { ConfigView { dim_when_hidden: !c.dim_when_hidden, ..c } }
    else if id == ID_BATTERY { ConfigView { pause_on_battery: !c.pause_on_battery, ..c } }
    else if id == ID_CLICK { ConfigView { click_through: !c.click_through, ..c } }
    else if id == ID_AUTOSTART { ConfigView { autostart: !c.autostart, ..c } }
    else if id == ID_VOL_UP { ConfigView { volume: clamp_volume(c.volume + VOLUME_STEP) as i64, ..c } }
    else if id == ID_VOL_DOWN { ConfigView { volume: clamp_volume(c.volume - VOLUME_STEP) as i64, ..c } }
    else if id == ID_FIT_FILL || id == ID_FIT_FIT || id == ID_FIT_CENTER || id == ID_FIT_STRETCH {
        ConfigView { fit: choice_value(id), ..c }
    } else if id == ID_REND_D3D11 || id == ID_REND_VULKAN || id == ID_REND_ANGLE {
        ConfigView { renderer: choice_value(id), ..c }
    } else if id == ID_DOWN_OFF || id == ID_DOWN_720 || id == ID_DOWN_540 {
        ConfigView { downscale: choice_value(id), ..c }
    } else if id == ID_HW_AUTO || id == ID_HW_D3D11VA || id == ID_HW_DXVA2 || id == ID_HW_OFF {
        ConfigView { hwdec: choice_value(id), ..c }
    } else if id == ID_MON_PRIMARY || id == ID_MON_ALL {
        ConfigView { monitor_mode: choice_value(id), ..c }
    } else {
        c
    }
}

/// What must happen after a menu choice, besides the change of settings.
pub enum MenuEffect {
    /// Nothing (an unknown entry).
    Nothing,
    /// Ask the user for a video file, then apply it with `choose_video`.
    PickVideo,
    /// Save the settings, then send the request, if any, to the playback thread.
    Save(Option<Cmd>),
    /// Save the settings, then let clicks pass through the wallpaper or not.
    SaveClickThrough(bool),
    /// Save the settings, then turn starting with Windows on or off.
    SaveAutostart(bool),
    /// Tell the playback thread to quit and close the tray.
    Quit,
}

/// The effect of a menu choice, given the settings after it: each setting change is
/// saved; audio, volume, fit, renderer, lite mode, v-sync, downscale and hardware
/// decode changes are passed on to the playback thread; blur and monitor mode
/// changes restart the session; smart pause and battery pause are only saved.
pub open spec fn menu_effect_ok(c: ConfigView, id: usize, e: MenuEffect) -> bool {
    if id == ID_PICK { e is PickVideo }
    else if id == ID_AUDIO { e matches MenuEffect::Save(Some(Cmd::SetAudio { on })) && on == c.audio }
    else if id == ID_VOL_UP || id == ID_VOL_DOWN {
        e matches MenuEffect::Save(Some(Cmd::SetVolume { v })) && v == c.volume
    } else if id == ID_FIT_FILL || id == ID_FIT_FIT || id == ID_FIT_CENTER || id == ID_FIT_STRETCH {
        e matches MenuEffect::Save(Some(Cmd::SetFit { mode })) && mode@ == choice_value(id)
    } else if id == ID_REND_D3D11 || id == ID_REND_VULKAN || id == ID_REND_ANGLE {
        e matches MenuEffect::Save(Some(Cmd::SetRenderer { name })) && name@ == choice_value(id)
    } else if id == ID_DOWN_OFF || id == ID_DOWN_720 || id == ID_DOWN_540 {
        e matches MenuEffect::Save(Some(Cmd::SetDownscale { mode })) && mode@ == choice_value(id)
    } else if id == ID_HW_AUTO || id == ID_HW_D3D11VA || id == ID_HW_DXVA2 || id == ID_HW_OFF {
        e matches MenuEffect::Save(Some(Cmd::SetHwdec { mode })) && mode@ == choice_value(id)
    } else if id == ID_LITE { e matches MenuEffect::Save(Some(Cmd::SetLite { on })) && on == c.lite }
    else if id == ID_VSYNC { e matches MenuEffect::Save(Some(Cmd::SetVsync { on })) && on == c.vsync }
    else if id == ID_SMART || id == ID_BATTERY { e matches MenuEffect::Save(None) }
    else if id == ID_DIM || id == ID_MON_PRIMARY || id == ID_MON_ALL {
        e matches MenuEffect::Save(Some(Cmd::Restart))
    } else if id == ID_CLICK { e == MenuEffect::SaveClickThrough(c.click_through) }
    else if id == ID_AUTOSTART { e == MenuEffect::SaveAutostart(c.autostart) }
    else if id == ID_QUIT { e is Quit }
    else { e is Nothing }
}

/// The volume entries cannot overflow the stored volume.
pub open spec fn menu_choice_ok(c: ConfigView, id: usize) -> bool {
    &&& id == ID_VOL_UP ==> c.volume <= i64::MAX - VOLUME_STEP
    &&& id == ID_VOL_DOWN ==> c.volume >= i64::MIN + VOLUME_STEP
}

/// Moves the volume by `delta` and keeps it within 0..=100; gives the new volume.
pub fn change_volume(cfg: &mut Config, delta: i64) -> (v: i64)
    requires
        i64::MIN <= old(cfg).volume + delta <= i64::MAX,
    ensures
        v == clamp_volume(old(cfg).volume + delta),
        final(cfg)@ == (ConfigView { volume: v, ..old(cfg)@ }),
{
    let sum = cfg.volume + delta;
    let v = if sum < VOLUME_MIN { VOLUME_MIN } else if sum > VOLUME_MAX { VOLUME_MAX } else { sum };
    cfg.volume = v;
    v
}

/// Selects the monitor mode; the session restarts to cover the new monitors.
fn set_monitor(cfg: &mut Config, mode: &str) -> (c: Cmd)
    ensures
        final(cfg)@ == (ConfigView { monitor_mode: mode@, ..old(cfg)@ }),
        c is Restart,
{
    cfg.monitor_mode = String::from_str(mode);
    Cmd::Restart
}

/// Selects the fit mode; the players apply it at once.
fn set_fit(cfg: &mut Config, mode: &str) -> (c: Cmd)
    ensures
        final(cfg)@ == (ConfigView { fit: mode@, ..old(cfg)@ }),
        c matches Cmd::SetFit { mode: m } && m@ == mode@,
{
    cfg.fit = String::from_str(mode);
    Cmd::SetFit { mode: String::from_str(mode) }
}

/// Selects the renderer; the session restarts with it.
fn set_renderer(cfg: &mut Config, name: &str) -> (c: Cmd)
    ensures
        final(cfg)@ == (ConfigView { renderer: name@, ..old(cfg)@ }),
        c matches Cmd::SetRenderer { name: n } && n@ == name@,
{
    cfg.renderer = String::from_str(name);
    Cmd::SetRenderer { name: String::from_str(name) }
}

/// Selects the decode downscale; the session restarts with it.
fn set_downscale(cfg: &mut Config, mode: &str) -> (c: Cmd)
    ensures
        final(cfg)@ == (ConfigView { downscale: mode@, ..old(cfg)@ }),
        c matches Cmd::SetDownscale { mode: m } && m@ == mode@,
{
    cfg.downscale = String::from_str(mode);
    Cmd::SetDownscale { mode: String::from_str(mode) }
}

/// Selects the hardware decode mode; the session restarts with it.
fn set_hwdec(cfg: &mut Config, mode: &str) -> (c: Cmd)
    ensures
        final(cfg)@ == (ConfigView { hwdec: mode@, ..old(cfg)@ }),
        c matches Cmd::SetHwdec { mode: m } && m@ == mode@,
{
    cfg.hwdec = String::from_str(mode);
    Cmd::SetHwdec { mode: String::from_str(mode) }
}

/// Applies a tray-menu choice to the settings and says what must follow.
pub fn apply_menu_choice(cfg: &mut Config, id: usize) -> (e: MenuEffect)
    requires
        menu_choice_ok(old(cfg)@, id),
    ensures
        final(cfg)@ == menu_config(old(cfg)@, id),
        menu_effect_ok(final(cfg)@, id, e),
{
    if id == ID_PICK {
        MenuEffect::PickVideo
    } else if id == ID_AUDIO {
        cfg.audio = !cfg.audio;
        MenuEffect::Save(Some(Cmd::SetAudio { on: cfg.audio }))
    } else if id == ID_VOL_UP {
        let v = change_volume(cfg, VOLUME_STEP);
        MenuEffect::Save(Some(Cmd::SetVolume { v }))
    } else if id == ID_VOL_DOWN {
        let v = change_volume(cfg, -VOLUME_STEP);
        MenuEffect::Save(Some(Cmd::SetVolume { v }))
    } else if id == ID_FIT_FILL {
        MenuEffect::Save(Some(set_fit(cfg, "fill")))
    } else if id == ID_FIT_FIT {
        MenuEffect::Save(Some(set_fit(cfg, "fit")))
    } else if id == ID_FIT_CENTER {
        MenuEffect::Save(Some(set_fit(cfg, "center")))
    } else if id == ID_FIT_STRETCH {
        MenuEffect::Save(Some(set_fit(cfg, "stretch")))
    } else if id == ID_REND_D3D11 {
        MenuEffect::Save(Some(set_renderer(cfg, "d3d11")))
    } else if id == ID_REND_VULKAN {
        MenuEffect::Save(Some(set_renderer(cfg, "vulkan")))
    } else if id == ID_REND_ANGLE {
        MenuEffect::Save(Some(set_renderer(cfg, "angle")))
    } else if id == ID_DOWN_OFF {
        MenuEffect::Save(Some(set_downscale(cfg, "off")))
    } else if id == ID_DOWN_720 {
        MenuEffect::Save(Some(set_downscale(cfg, "720p")))
    } else if id == ID_DOWN_540 {
        MenuEffect::Save(Some(set_downscale(cfg, "540p")))
    } else if id == ID_HW_AUTO {
        MenuEffect::Save(Some(set_hwdec(cfg, "auto")))
    } else if id == ID_HW_D3D11VA {
        MenuEffect::Save(Some(set_hwdec(cfg, "d3d11va-copy")))
    } else if id == ID_HW_DXVA2 {
        MenuEffect::Save(Some(set_hwdec(cfg, "dxva2-copy")))
    } else if id == ID_HW_OFF {
        MenuEffect::Save(Some(set_hwdec(cfg, "off")))
    } else if id == ID_LITE {
        cfg.lite = !cfg.lite;
        MenuEffect::Save(Some(Cmd::SetLite { on: cfg.lite }))
    } else if id == ID_VSYNC {
        cfg.vsync = !cfg.vsync;
        MenuEffect::Save(Some(Cmd::SetVsync { on: cfg.vsync }))
    } else if id == ID_SMART {
        cfg.smart_pause = !cfg.smart_pause;
        MenuEffect::Save(None)
    } else if id == ID_DIM {
        cfg.dim_when_hidden = !cfg.dim_when_hidden;
        MenuEffect::Save(Some(Cmd::Restart))
    } else if id == ID_BATTERY {
        cfg.pause_on_battery = !cfg.pause_on_battery;
        MenuEffect::Save(None)
    } else if id == ID_MON_PRIMARY {
        MenuEffect::Save(Some(set_monitor(cfg, "primary")))
    } else if id == ID_MON_ALL {
        MenuEffect::Save(Some(set_monitor(cfg, "all")))
    } else if id == ID_CLICK {
        cfg.click_through = !cfg.click_through;
        MenuEffect::SaveClickThrough(cfg.click_through)
    } else if id == ID_AUTOSTART {
        cfg.autostart = !cfg.autostart;
        MenuEffect::SaveAutostart(cfg.autostart)
    } else if id == ID_QUIT {
        MenuEffect::Quit
    } else {
        MenuEffect::Nothing
    }
}

/// Makes a picked file the video to play; gives the request that loads it.
pub fn choose_video(cfg: &mut Config, path: String) -> (c: Cmd)
    ensures
        final(cfg)@ == (ConfigView { video: Some(path@), ..old(cfg)@ }),
        c matches Cmd::Load { path: p } && p@ == path@,
{
    cfg.video = Some(path.clone());
    Cmd::Load { path }
}

/// Changing the renderer, lite mode, v-sync, downscale, hardware decode, blur or
/// monitor mode from the menu sends the playback thread a request that restarts the
/// session, since a running player cannot take such a change.
pub proof fn law_restarting_choices(c: ConfigView, id: usize, e: MenuEffect)
    requires
        id == ID_REND_D3D11 || id == ID_REND_VULKAN || id == ID_REND_ANGLE || id == ID_DOWN_OFF
            || id == ID_DOWN_720 || id == ID_DOWN_540 || id == ID_HW_AUTO || id == ID_HW_D3D11VA
            || id == ID_HW_DXVA2 || id == ID_HW_OFF || id == ID_LITE || id == ID_VSYNC || id == ID_DIM
            || id == ID_MON_PRIMARY || id == ID_MON_ALL,
        menu_effect_ok(c, id, e),
    ensures
        e matches MenuEffect::Save(Some(cmd)) && needs_restart(cmd),
{
}

/// Choosing an on/off entry twice gives back the settings it started from.
pub proof fn law_toggle_twice_restores(c: ConfigView, id: usize)
    requires
        is_toggle(id),
    ensures
        menu_config(menu_config(c, id), id) == c,
{
}

/// Choosing a selection entry again changes nothing more.
pub proof fn law_selection_idempotent(c: ConfigView, id: usize)
    requires
        is_selection(id),
    ensures
        menu_config(menu_config(c, id), id) == menu_config(c, id),
{
}

/// The volume entries always leave the volume within 0..=100.
pub proof fn law_volume_stays_in_range(c: ConfigView, id: usize)
    requires
        id == ID_VOL_UP || id == ID_VOL_DOWN,
    ensures
        VOLUME_MIN <= menu_config(c, id).volume <= VOLUME_MAX,
{
}

proof fn lemma_choice_values_distinct()
    ensures
        choice_value(ID_FIT_FILL) != choice_value(ID_FIT_FIT),
        choice_value(ID_FIT_FILL) != choice_value(ID_FIT_CENTER),
        choice_value(ID_FIT_FILL) != choice_value(ID_FIT_STRETCH),
        choice_value(ID_FIT_FIT) != choice_value(ID_FIT_CENTER),
        choice_value(ID_FIT_FIT) != choice_value(ID_FIT_STRETCH),
        choice_value(ID_FIT_CENTER) != choice_value(ID_FIT_STRETCH),
        choice_value(ID_REND_D3D11) != choice_value(ID_REND_VULKAN),
        choice_value(ID_REND_D3D11) != choice_value(ID_REND_ANGLE),
        choice_value(ID_REND_VULKAN) != choice_value(ID_REND_ANGLE),
        choice_value(ID_DOWN_OFF) != choice_value(ID_DOWN_720),
        choice_value(ID_DOWN_OFF) != choice_value(ID_DOWN_540),
        choice_value(ID_DOWN_720) != choice_value(ID_DOWN_540),
        choice_value(ID_HW_AUTO) != choice_value(ID_HW_D3D11VA),
        choice_value(ID_HW_AUTO) != choice_value(ID_HW_DXVA2),
        choice_value(ID_HW_AUTO) != choice_value(ID_HW_OFF),
        choice_value(ID_HW_D3D11VA) != choice_value(ID_HW_DXVA2),
        choice_value(ID_HW_D3D11VA) != choice_value(ID_HW_OFF),
        choice_value(ID_HW_DXVA2) != choice_value(ID_HW_OFF),
        choice_value(ID_MON_PRIMARY) != "all"@,
{
    reveal_strlit("fill");
    reveal_strlit("fit");
    reveal_strlit("center");
    reveal_strlit("stretch");
    reveal_strlit("d3d11");
    reveal_strlit("vulkan");
    reveal_strlit("angle");
    reveal_strlit("off");
    reveal_strlit("720p");
    reveal_strlit("540p");
    reveal_strlit("auto");
    reveal_strlit("d3d11va-copy");
    reveal_strlit("dxva2-copy");
    reveal_strlit("primary");
    reveal_strlit("all");
    assert("fill"@[2] != "fit"@[2]);
    assert("d3d11"@[0] != "angle"@[0]);
    assert("720p"@[0] != "540p"@[0]);
    assert("d3d11va-copy"@[1] != "dxva2-copy"@[1]);
    assert("center"@.len() != "stretch"@.len());
    assert("fill"@.len() != "center"@.len() && "fill"@.len() != "stretch"@.len());
    assert("fit"@.len() != "center"@.len() && "fit"@.len() != "stretch"@.len());
    assert("d3d11"@.len() != "vulkan"@.len() && "vulkan"@.len() != "angle"@.len());
    assert("off"@.len() != "720p"@.len() && "off"@.len() != "540p"@.len());
    assert("auto"@.len() != "off"@.len() && "auto"@.len() != "d3d11va-copy"@.len());
    assert("auto"@.len() != "dxva2-copy"@.len() && "off"@.len() != "d3d11va-copy"@.len());
    assert("off"@.len() != "dxva2-copy"@.len() && "primary"@.len() != "all"@.len());
}

/// After a selection entry is chosen, its submenu shows that entry checked and
/// every other entry of the submenu unchecked.
pub proof fn law_selection_checked_in_menu(c: ConfigView, id: usize, which: Submenu)
    requires
        is_selection(id),
        submenu_ids(which).contains(id),
    ensures
        forall|j: int| 0 <= j < submenu_spec(menu_config(c, id), which).len() ==>
            (#[trigger] submenu_spec(menu_config(c, id), which)[j]).checked == (submenu_ids(which)[j] == id),
{
    lemma_choice_values_distinct();
    reveal_strlit("all");
    let ids = submenu_ids(which);
    let k = choose|k: int| 0 <= k < ids.len() && ids[k] == id;
    assert forall|j: int| 0 <= j < submenu_spec(menu_config(c, id), which).len() implies
        (#[trigger] submenu_spec(menu_config(c, id), which)[j]).checked == (ids[j] == id) by {
        assert(submenu_spec(menu_config(c, id), which)[j].checked == choice_checked(menu_config(c, id), ids[j]));
    }
}

/// After an on/off entry is chosen, its check mark in the menu is flipped.
pub proof fn law_toggle_flips_check_mark(c: ConfigView, id: usize)
    requires
        is_toggle(id),
    ensures
        choice_checked(menu_config(c, id), id) == !choice_checked(c, id),
{
}

/// Each on/off entry's check mark shows its own setting.
pub proof fn law_toggle_marks_show_settings(c: ConfigView)
    ensures
        choice_checked(c, ID_AUDIO) == c.audio,
        choice_checked(c, ID_LITE) == c.lite,
        choice_checked(c, ID_VSYNC) == c.vsync,
        choice_checked(c, ID_SMART) == c.smart_pause,
        choice_checked(c, ID_DIM) == c.dim_when_hidden,
        choice_checked(c, ID_BATTERY) == c.pause_on_battery,
        choice_checked(c, ID_CLICK) == c.click_through,
        choice_checked(c, ID_AUTOSTART) == c.autostart,
{
}

/// Every choice line of the tray menu carries the check mark of its own setting.
pub proof fn law_menu_lines_carry_their_marks(c: ConfigView)
    ensures
        forall|j: int| 0 <= j < menu_spec(c).len() ==> (#[trigger] menu_spec(c)[j] matches MenuEntry::Choice(ch)
            ==> ch.checked == choice_checked(c, ch.id)),
{
}

/// An on/off entry changes its own setting and no other: every other entry's check
/// mark stays as it was, and so do the video, the volume and the selected fit mode,
/// renderer, downscale, hardware decode and monitor mode.
pub proof fn law_toggle_changes_only_its_setting(c: ConfigView, id: usize, other: usize)
    requires
        is_toggle(id),
        other != id,
    ensures
        choice_checked(menu_config(c, id), other) == choice_checked(c, other),
        menu_config(c, id).video == c.video,
        menu_config(c, id).volume == c.volume,
        menu_config(c, id).fit == c.fit,
        menu_config(c, id).renderer == c.renderer,
        menu_config(c, id).downscale == c.downscale,
        menu_config(c, id).hwdec == c.hwdec,
        menu_config(c, id).monitor_mode == c.monitor_mode,
{
}

/// A submenu choice sets its own submenu's setting and no other: the on/off
/// settings, the video, the volume and the other submenus' settings stay as they were.
pub proof fn law_selection_changes_only_its_setting(c: ConfigView, id: usize, which: Submenu)
    requires
        submenu_ids(which).contains(id),
    ensures ({
        let r = menu_config(c, id);
        &&& r.video == c.video
        &&& r.volume == c.volume
        &&& r.audio == c.audio
        &&& r.lite == c.lite
        &&& r.vsync == c.vsync
        &&& r.smart_pause == c.smart_pause
        &&& r.dim_when_hidden == c.dim_when_hidden
        &&& r.pause_on_battery == c.pause_on_battery
        &&& r.click_through == c.click_through
        &&& r.autostart == c.autostart
        &&& which != Submenu::Fit ==> r.fit == c.fit
        &&& which != Submenu::Renderer ==> r.renderer == c.renderer
        &&& which != Submenu::Downscale ==> r.downscale == c.downscale
        &&& which != Submenu::Hwdec ==> r.hwdec == c.hwdec
        &&& which != Submenu::Monitor ==> r.monitor_mode == c.monitor_mode
    }),
{
    let ids = submenu_ids(which);
    let k = choose|k: int| 0 <= k < ids.len() && ids[k] == id;
    assert(ids[k] == id);
}

/// The volume entries move the volume by one step up or down, stopping at the
/// lowest and highest volume, and change nothing else.
pub proof fn law_volume_step(c: ConfigView, id: usize)
    requires
        id == ID_VOL_UP || id == ID_VOL_DOWN,
    ensures ({
        let r = menu_config(c, id);
        let target = if id == ID_VOL_UP { c.volume + VOLUME_STEP } else { c.volume - VOLUME_STEP };
        &&& r.volume == (if target < VOLUME_MIN { VOLUME_MIN as int } else if target > VOLUME_MAX {
            VOLUME_MAX as int
        } else {
            target
        })
        &&& r == ConfigView { volume: r.volume, ..c }
    }),
{
}

/// The menu's title line: the video's file name, or a note that no video is selected.
pub open spec fn title_spec(name: Option<Seq<char>>) -> Seq<char> {
    match name {
        Some(n) => n,
        None => "No video selected"@,
    }
}

/// The menu's title line for the file name of the video, if any.
pub fn title_for(name: Option<String>) -> (r: String)
    ensures
        r@ == title_spec(match name {
            Some(n) => Some(n@),
            None => None,
        }),
{
    match name {
        Some(n) => n,
        None => String::from_str("No video selected"),
    }
}

/// The menu's title line: the configured video's file name, or "No video selected"
/// where no video is configured or its path names no file.
pub fn video_title(cfg: &Config) -> (r: String)
    ensures
        r@ == title_spec(match cfg.video {
            Some(p) => file_name_spec(p@),
            None => None,
        }),
{
    let name = match &cfg.video {
        Some(p) => file_name(p.as_str()),
        None => None,
    };
    title_for(name)
}

} // verus!
