use vstd::prelude::*;
use crate::text::{decimal, decimal_u64, same_text};

verus! {

/// One option set on a new mpv instance before it is initialized.
pub struct MpvOption {
    pub name: &'static str,
    pub value: String,
}

/// The name and value of an option, as characters.
pub open spec fn option_view(o: MpvOption) -> (Seq<char>, Seq<char>) {
    (o.name@, o.value@)
}

/// The options of a list, as characters.
pub open spec fn options_view(v: Seq<MpvOption>) -> Seq<(Seq<char>, Seq<char>)> {
    v.map_values(|o: MpvOption| option_view(o))
}

/// The graphics API a renderer uses: Vulkan, OpenGL through ANGLE, or Direct3D 11
/// for any other name.
pub open spec fn gpu_api_spec(renderer: Seq<char>) -> Seq<char> {
    if renderer == "vulkan"@ {
        "vulkan"@
    } else if renderer == "angle"@ {
        "opengl"@
    } else {
        "d3d11"@
    }
}

/// The hardware decoder a renderer uses when the setting is "auto": the copying
/// D3D11 decoder for Vulkan and ANGLE, mpv's own choice for Direct3D 11.
pub open spec fn default_hwdec_spec(renderer: Seq<char>) -> Seq<char> {
    if renderer == "vulkan"@ || renderer == "angle"@ {
        "d3d11va-copy"@
    } else {
        "auto"@
    }
}

/// The hardware decoder a player uses: the configured one, or the renderer's own for
/// "auto". With the blur on, a decoder whose frames the blur filters cannot read is
/// replaced by its copying variant.
pub open spec fn effective_hwdec_spec(renderer: Seq<char>, hwdec_cfg: Seq<char>, blur: bool) -> Seq<char> {
    let h = if hwdec_cfg == "auto"@ { default_hwdec_spec(renderer) } else { hwdec_cfg };
    if blur {
        if h == "auto"@ || h == "d3d11va"@ {
            "d3d11va-copy"@
        } else if h == "dxva2"@ {
            "dxva2-copy"@
        } else {
            h
        }
    } else {
        h
    }
}

/// How playback is synchronised: to the display in lite mode, resampled to the
/// display with v-sync, to the audio otherwise.
pub open spec fn video_sync_spec(lite: bool, vsync: bool) -> Seq<char> {
    if lite {
        "display"@
    } else if vsync {
        "display-resample"@
    } else {
        "audio"@
    }
}

/// The options every player gets.
pub open spec fn base_options(hwdec: Seq<char>) -> Seq<(Seq<char>, Seq<char>)> {
    seq![
        ("idle"@, "yes"@),
        ("vo"@, "gpu"@),
        ("hwdec"@, hwdec),
        ("loop-file"@, "inf"@),
        ("loop"@, "inf"@),
        ("input-default-bindings"@, "no"@),
        ("input-vo-keyboard"@, "no"@),
        ("osc"@, "no"@),
        ("osd-level"@, "0"@),
        ("ytdl"@, "no"@),
        ("cache"@, "no"@),
        ("demuxer-readahead-secs"@, "1.0"@),
        ("vd-lavc-dr"@, "yes"@),
        ("framedrop"@, "vo"@),
        ("keep-open"@, "yes"@),
        ("audio-client-name"@, "LiveWallpaper"@),
        ("msg-level"@, "all=error"@),
        ("terminal"@, "no"@),
    ]
}

/// The scale filter that caps decoding at a resolution: 720p and 540p cap the width
/// at 1280 and 960; any other setting leaves the video alone.
pub open spec fn downscale_filter_spec(downscale: Seq<char>) -> Option<Seq<char>> {
    if downscale == "720p"@ {
        Some("scale=w=1280:h=-2"@)
    } else if downscale == "540p"@ {
        Some("scale=w=960:h=-2"@)
    } else {
        None
    }
}

/// The options of a new player, in the order they are set: the common ones, the
/// graphics API (and ANGLE's context), the sync mode, the lite-mode limits (30 fps,
/// decoder frame dropping, no loop filter on non-key frames) and the downscale filter.
pub open spec fn player_options_spec(
    renderer: Seq<char>,
    lite: bool,
    vsync: bool,
    downscale: Seq<char>,
    hwdec_cfg: Seq<char>,
    blur: bool,
) -> Seq<(Seq<char>, Seq<char>)> {
    base_options(effective_hwdec_spec(renderer, hwdec_cfg, blur))
        + seq![("gpu-api"@, gpu_api_spec(renderer))]
        + (if renderer == "angle"@ { seq![("gpu-context"@, "angle"@)] } else { seq![] })
        + seq![("video-sync"@, video_sync_spec(lite, vsync))]
        + (if lite {
            seq![
                ("override-display-fps"@, "30"@),
                ("framedrop"@, "decoder"@),
                ("vd-lavc-skiploopfilter"@, "nonkey"@),
            ]
        } else {
            seq![]
        })
        + match downscale_filter_spec(downscale) {
            Some(f) => seq![("vf"@, f)],
            None => seq![],
        }
}

/// The graphics API of a renderer.
pub fn gpu_api(renderer: &str) -> (r: &'static str)
    ensures
        r@ == gpu_api_spec(renderer@),
{
    if same_text(renderer, "vulkan") {
        "vulkan"
    } else if same_text(renderer, "angle") {
        "opengl"
    } else {
        "d3d11"
    }
}

/// The graphics context of a renderer, where it needs one (ANGLE).
pub fn gpu_context(renderer: &str) -> (r: Option<&'static str>)
    ensures
        renderer@ == "angle"@ ==> (r matches Some(c) && c@ == "angle"@),
        renderer@ != "angle"@ ==> r is None,
{
    if same_text(renderer, "angle") {
        Some("angle")
    } else {
        None
    }
}

/// The hardware decoder a player uses.
pub fn effective_hwdec(renderer: &str, hwdec_cfg: &str, blur: bool) -> (r: String)
    ensures
        r@ == effective_hwdec_spec(renderer@, hwdec_cfg@, blur),
{
    let h: &str = if same_text(hwdec_cfg, "auto") {
        if same_text(renderer, "vulkan") || same_text(renderer, "angle") {
            "d3d11va-copy"
        } else {
            "auto"
        }
    } else {
        hwdec_cfg
    };
    if blur {
        if same_text(h, "auto") || same_text(h, "d3d11va") {
            String::from_str("d3d11va-copy")
        } else if same_text(h, "dxva2") {
            String::from_str("dxva2-copy")
        } else {
            String::from_str(h)
        }
    } else {
        String::from_str(h)
    }
}

/// How playback is synchronised.
pub fn video_sync(lite: bool, vsync: bool) -> (r: &'static str)
    ensures
        r@ == video_sync_spec(lite, vsync),
{
    if lite {
        "display"
    } else if vsync {
        "display-resample"
    } else {
        "audio"
    }
}

fn opt(name: &'static str, value: &str) -> (o: MpvOption)
    ensures
        option_view(o) == (name@, value@),
{
    MpvOption { name, value: String::from_str(value) }
}

/// The options of a new player, in the order they are set.
pub fn player_options(
    renderer: &str,
    lite: bool,
    vsync: bool,
    downscale: &str,
    hwdec_cfg: &str,
    blur: bool,
) -> (r: Vec<MpvOption>)
    ensures
        options_view(r@) == player_options_spec(renderer@, lite, vsync, downscale@, hwdec_cfg@, blur),
{
    let hwdec = effective_hwdec(renderer, hwdec_cfg, blur);
    let mut v: Vec<MpvOption> = Vec::new();
    v.push(opt("idle", "yes"));
    v.push(opt("vo", "gpu"));
    v.push(opt("hwdec", hwdec.as_str()));
    v.push(opt("loop-file", "inf"));
    v.push(opt("loop", "inf"));
    v.push(opt("input-default-bindings", "no"));
    v.push(opt("input-vo-keyboard", "no"));
    v.push(opt("osc", "no"));
    v.push(opt("osd-level", "0"));
    v.push(opt("ytdl", "no"));
    v.push(opt("cache", "no"));
    v.push(opt("demuxer-readahead-secs", "1.0"));
    v.push(opt("vd-lavc-dr", "yes"));
    v.push(opt("framedrop", "vo"));
    v.push(opt("keep-open", "yes"));
    v.push(opt("audio-client-name", "LiveWallpaper"));
    v.push(opt("msg-level", "all=error"));
    v.push(opt("terminal", "no"));
    let ghost base = options_view(v@);
    assert(base =~= base_options(hwdec@));
    v.push(opt("gpu-api", gpu_api(renderer)));
    let ghost mut expected = base_options(hwdec@) + seq![("gpu-api"@, gpu_api_spec(renderer@))];
    assert(options_view(v@) =~= expected);
    match gpu_context(renderer) {
        Some(ctx) => {
            v.push(opt("gpu-context", ctx));
        },
        None => {},
    }
    proof {
        expected = expected + (if renderer@ == "angle"@ { seq![("gpu-context"@, "angle"@)] } else { seq![] });
        assert(options_view(v@) =~= expected);
    }
    v.push(opt("video-sync", video_sync(lite, vsync)));
    proof {
        expected = expected + seq![("video-sync"@, video_sync_spec(lite, vsync))];
        assert(options_view(v@) =~= expected);
    }
    if lite {
        v.push(opt("override-display-fps", "30"));
        v.push(opt("framedrop", "decoder"));
        v.push(opt("vd-lavc-skiploopfilter", "nonkey"));
    }
    proof {
        expected = expected + (if lite {
            seq![
                ("override-display-fps"@, "30"@),
                ("framedrop"@, "decoder"@),
                ("vd-lavc-skiploopfilter"@, "nonkey"@),
            ]
        } else {
            seq![]
        });
        assert(options_view(v@) =~= expected);
    }
    if same_text(downscale, "720p") {
        v.push(opt("vf", "scale=w=1280:h=-2"));
    } else if same_text(downscale, "540p") {
        v.push(opt("vf", "scale=w=960:h=-2"));
    }
    proof {
        expected = expected + match downscale_filter_spec(downscale@) {
            Some(f) => seq![("vf"@, f)],
            None => seq![],
        };
        assert(options_view(v@) =~= expected);
    }
    v
}

/// One property that setting a fit mode changes.
pub enum FitStep {
    /// A yes/no property.
    Flag { name: &'static str, on: bool },
    /// A property set from text.
    Text { name: &'static str, value: &'static str },
}

/// A fit step as characters: the property, the flag value (for a yes/no property)
/// and the text value (empty for a yes/no property).
pub open spec fn fit_step_view(s: FitStep) -> (Seq<char>, Option<bool>, Seq<char>) {
    match s {
        FitStep::Flag { name, on } => (name@, Some(on), ""@),
        FitStep::Text { name, value } => (name@, None, value@),
    }
}

/// The properties a fit mode sets, in order. "fit" keeps the aspect ratio with the
/// whole video visible; "center" shows the video unscaled; "stretch" fills the
/// screen ignoring the aspect ratio; any other mode (fill) keeps the aspect ratio and
/// crops to fill the screen.
pub open spec fn fit_plan_spec(mode: Seq<char>) -> Seq<(Seq<char>, Option<bool>, Seq<char>)> {
    if mode == "fit"@ {
        seq![
            ("keepaspect"@, Some(true), ""@),
            ("video-unscaled"@, None, "no"@),
            ("panscan"@, None, "0"@),
            ("video-align-x"@, None, "0"@),
            ("video-align-y"@, None, "0"@),
        ]
    } else if mode == "center"@ {
        seq![
            ("keepaspect"@, Some(true), ""@),
            ("video-unscaled"@, None, "yes"@),
            ("video-align-x"@, None, "0"@),
            ("video-align-y"@, None, "0"@),
        ]
    } else if mode == "stretch"@ {
        seq![
            ("keepaspect"@, Some(false), ""@),
            ("video-unscaled"@, None, "no"@),
            ("panscan"@, None, "0"@),
        ]
    } else {
        seq![
            ("keepaspect"@, Some(true), ""@),
            ("video-unscaled"@, None, "no"@),
            ("panscan"@, None, "1.0"@),
            ("video-align-x"@, None, "0"@),
            ("video-align-y"@, None, "0"@),
        ]
    }
}

/// The properties a fit mode sets, in the order they are set; setting them stops at
/// the first one that fails.
pub fn fit_plan(mode: &str) -> (r: Vec<FitStep>)
    ensures
        r@.map_values(|s: FitStep| fit_step_view(s)) == fit_plan_spec(mode@),
{
    proof {
        reveal_strlit("");
    }
    let mut v: Vec<FitStep> = Vec::new();
    if same_text(mode, "fit") {
        v.push(FitStep::Flag { name: "keepaspect", on: true });
        v.push(FitStep::Text { name: "video-unscaled", value: "no" });
        v.push(FitStep::Text { name: "panscan", value: "0" });
        v.push(FitStep::Text { name: "video-align-x", value: "0" });
        v.push(FitStep::Text { name: "video-align-y", value: "0" });
    } else if same_text(mode, "center") {
        v.push(FitStep::Flag { name: "keepaspect", on: true });
        v.push(FitStep::Text { name: "video-unscaled", value: "yes" });
        v.push(FitStep::Text { name: "video-align-x", value: "0" });
        v.push(FitStep::Text { name: "video-align-y", value: "0" });
    } else if same_text(mode, "stretch") {
        v.push(FitStep::Flag { name: "keepaspect", on: false });
        v.push(FitStep::Text { name: "video-unscaled", value: "no" });
        v.push(FitStep::Text { name: "panscan", value: "0" });
    } else {
        v.push(FitStep::Flag { name: "keepaspect", on: true });
        v.push(FitStep::Text { name: "video-unscaled", value: "no" });
        v.push(FitStep::Text { name: "panscan", value: "1.0" });
        v.push(FitStep::Text { name: "video-align-x", value: "0" });
        v.push(FitStep::Text { name: "video-align-y", value: "0" });
    }
    assert(v@.map_values(|s: FitStep| fit_step_view(s)) =~= fit_plan_spec(mode@));
    v
}

/// With the blur on, a player never uses a hardware decoder whose frames the blur's
/// scale filters cannot read: "auto", "d3d11va" and "dxva2" give way to the copying
/// decoders.
pub proof fn law_blur_uses_copying_decoder(renderer: Seq<char>, hwdec_cfg: Seq<char>)
    ensures ({
        let h = effective_hwdec_spec(renderer, hwdec_cfg, true);
        &&& h != "auto"@
        &&& h != "d3d11va"@
        &&& h != "dxva2"@
    }),
{
    reveal_strlit("auto");
    reveal_strlit("d3d11va");
    reveal_strlit("dxva2");
    reveal_strlit("d3d11va-copy");
    reveal_strlit("dxva2-copy");
    assert("d3d11va-copy"@.len() != "auto"@.len() && "d3d11va-copy"@.len() != "d3d11va"@.len());
    assert("d3d11va-copy"@.len() != "dxva2"@.len());
    assert("dxva2-copy"@.len() != "auto"@.len() && "dxva2-copy"@.len() != "d3d11va"@.len());
    assert("dxva2-copy"@.len() != "dxva2"@.len());
}

/// Lite mode caps playback at 30 frames per second: a lite player is given that
/// display rate, and no other player is.
pub proof fn law_lite_caps_frame_rate(
    renderer: Seq<char>, lite: bool, vsync: bool, downscale: Seq<char>, hwdec_cfg: Seq<char>, blur: bool,
)
    ensures
        player_options_spec(renderer, lite, vsync, downscale, hwdec_cfg, blur).contains(("override-display-fps"@, "30"@))
            == lite,
{
    let opts = player_options_spec(renderer, lite, vsync, downscale, hwdec_cfg, blur);
    let h = effective_hwdec_spec(renderer, hwdec_cfg, blur);
    let key = "override-display-fps"@;
    reveal_strlit("override-display-fps");
    reveal_strlit("idle");
    reveal_strlit("vo");
    reveal_strlit("hwdec");
    reveal_strlit("loop-file");
    reveal_strlit("loop");
    reveal_strlit("input-default-bindings");
    reveal_strlit("input-vo-keyboard");
    reveal_strlit("osc");
    reveal_strlit("osd-level");
    reveal_strlit("ytdl");
    reveal_strlit("cache");
    reveal_strlit("demuxer-readahead-secs");
    reveal_strlit("vd-lavc-dr");
    reveal_strlit("framedrop");
    reveal_strlit("keep-open");
    reveal_strlit("audio-client-name");
    reveal_strlit("msg-level");
    reveal_strlit("terminal");
    reveal_strlit("gpu-api");
    reveal_strlit("gpu-context");
    reveal_strlit("video-sync");
    reveal_strlit("vd-lavc-skiploopfilter");
    reveal_strlit("vf");
    let base = base_options(h);
    assert forall|i: int| 0 <= i < base.len() implies (#[trigger] base[i]).0 != key by {
        assert(base[i].0.len() != key.len() || base[i].0[0] != key[0]);
    }
    if lite {
        let k = base.len() + 1 + (if renderer == "angle"@ { 1int } else { 0int }) + 1;
        assert(opts[k] == (key, "30"@));
    } else {
        assert forall|i: int| 0 <= i < opts.len() implies (#[trigger] opts[i]).0 != key by {
            if i >= base.len() {
                assert(opts[i].0.len() != key.len() || opts[i].0[0] != key[0]);
            } else {
                assert(opts[i] == base[i]);
            }
        }
    }
}

/// Decoding is capped as the downscale setting says: a new player gets a `vf` option
/// exactly when the setting has a downscale filter, and then with that filter, the
/// one the unblurred chain settles on; "720p" caps the width at 1280 and "540p" at
/// 960, and every other setting leaves the video at full resolution.
pub proof fn law_downscale_caps_decoding(
    renderer: Seq<char>, lite: bool, vsync: bool, downscale: Seq<char>, hwdec_cfg: Seq<char>, blur: bool,
)
    ensures
        forall|f: Seq<char>|
            player_options_spec(renderer, lite, vsync, downscale, hwdec_cfg, blur).contains(("vf"@, f))
                <==> downscale_filter_spec(downscale) == Some(f),
        downscale == "720p"@ ==> player_options_spec(renderer, lite, vsync, downscale, hwdec_cfg, blur)
            .contains(("vf"@, "scale=w=1280:h=-2"@)),
        downscale == "540p"@ ==> player_options_spec(renderer, lite, vsync, downscale, hwdec_cfg, blur)
            .contains(("vf"@, "scale=w=960:h=-2"@)),
        downscale != "720p"@ && downscale != "540p"@ ==> forall|f: Seq<char>|
            !player_options_spec(renderer, lite, vsync, downscale, hwdec_cfg, blur).contains(("vf"@, f)),
        downscale_filter_spec(downscale) is Some ==> player_options_spec(renderer, lite, vsync, downscale, hwdec_cfg, blur)
            .contains(("vf"@, visible_chain_spec(downscale))),
{
    let opts = player_options_spec(renderer, lite, vsync, downscale, hwdec_cfg, blur);
    let h = effective_hwdec_spec(renderer, hwdec_cfg, blur);
    let key = "vf"@;
    reveal_strlit("override-display-fps");
    reveal_strlit("idle");
    reveal_strlit("vo");
    reveal_strlit("hwdec");
    reveal_strlit("loop-file");
    reveal_strlit("loop");
    reveal_strlit("input-default-bindings");
    reveal_strlit("input-vo-keyboard");
    reveal_strlit("osc");
    reveal_strlit("osd-level");
    reveal_strlit("ytdl");
    reveal_strlit("cache");
    reveal_strlit("demuxer-readahead-secs");
    reveal_strlit("vd-lavc-dr");
    reveal_strlit("framedrop");
    reveal_strlit("keep-open");
    reveal_strlit("audio-client-name");
    reveal_strlit("msg-level");
    reveal_strlit("terminal");
    reveal_strlit("gpu-api");
    reveal_strlit("gpu-context");
    reveal_strlit("video-sync");
    reveal_strlit("vd-lavc-skiploopfilter");
    reveal_strlit("vf");
    reveal_strlit("720p");
    reveal_strlit("540p");
    assert("540p"@ != "720p"@) by {
        assert("540p"@[0] != "720p"@[0]);
    }
    let base = base_options(h);
    let n = opts.len() - (if downscale_filter_spec(downscale) is Some { 1int } else { 0int });
    assert forall|i: int| 0 <= i < n implies (#[trigger] opts[i]).0 != key by {
        if i >= base.len() {
            assert(opts[i].0.len() != key.len() || opts[i].0[0] != key[0]);
        } else {
            assert(opts[i] == base[i]);
            assert(base[i].0.len() != key.len() || base[i].0[0] != key[0] || base[i].0[1] != key[1]);
        }
    }
    assert forall|f: Seq<char>|
        opts.contains((key, f)) <==> downscale_filter_spec(downscale) == Some(f) by {
        if opts.contains((key, f)) {
            let i = choose|i: int| 0 <= i < opts.len() && opts[i] == (key, f);
            if i < n {
                assert(opts[i].0 != key);
            }
        }
        if downscale_filter_spec(downscale) == Some(f) {
            assert(opts[opts.len() - 1] == (key, f));
        }
    }
}

/// A new player is synchronised to the display in lite mode, resampled to the
/// display with v-sync on, and to the audio otherwise; it gets exactly one sync
/// option.
pub proof fn law_sync_follows_settings(
    renderer: Seq<char>, lite: bool, vsync: bool, downscale: Seq<char>, hwdec_cfg: Seq<char>, blur: bool,
)
    ensures
        forall|m: Seq<char>|
            player_options_spec(renderer, lite, vsync, downscale, hwdec_cfg, blur).contains(("video-sync"@, m))
                <==> m == (if lite { "display"@ } else if vsync { "display-resample"@ } else { "audio"@ }),
{
    let opts = player_options_spec(renderer, lite, vsync, downscale, hwdec_cfg, blur);
    let h = effective_hwdec_spec(renderer, hwdec_cfg, blur);
    let key = "video-sync"@;
    reveal_strlit("override-display-fps");
    reveal_strlit("idle");
    reveal_strlit("vo");
    reveal_strlit("hwdec");
    reveal_strlit("loop-file");
    reveal_strlit("loop");
    reveal_strlit("input-default-bindings");
    reveal_strlit("input-vo-keyboard");
    reveal_strlit("osc");
    reveal_strlit("osd-level");
    reveal_strlit("ytdl");
    reveal_strlit("cache");
    reveal_strlit("demuxer-readahead-secs");
    reveal_strlit("vd-lavc-dr");
    reveal_strlit("framedrop");
    reveal_strlit("keep-open");
    reveal_strlit("audio-client-name");
    reveal_strlit("msg-level");
    reveal_strlit("terminal");
    reveal_strlit("gpu-api");
    reveal_strlit("gpu-context");
    reveal_strlit("video-sync");
    reveal_strlit("vd-lavc-skiploopfilter");
    reveal_strlit("vf");
    let base = base_options(h);
    let k = base.len() + 1 + (if renderer == "angle"@ { 1int } else { 0int });
    assert(opts[k].0 == key);
    assert forall|i: int| 0 <= i < opts.len() && i != k implies (#[trigger] opts[i]).0 != key by {
        if i >= base.len() {
            assert(opts[i].0.len() != key.len() || opts[i].0[0] != key[0] || opts[i].0[1] != key[1]);
        } else {
            assert(opts[i] == base[i]);
            assert(base[i].0.len() != key.len() || base[i].0[0] != key[0] || base[i].0[1] != key[1]);
        }
    }
    assert forall|m: Seq<char>|
        opts.contains((key, m)) <==> m == (if lite { "display"@ } else if vsync { "display-resample"@ } else { "audio"@ }) by {
        if opts.contains((key, m)) {
            let i = choose|i: int| 0 <= i < opts.len() && opts[i] == (key, m);
            if i != k {
                assert(opts[i].0 != key);
            }
        }
        assert(opts[k] == (key, video_sync_spec(lite, vsync)));
    }
}

/// The filter chain that shows the video without blur: the downscale filter where
/// one applies, the unchanged size otherwise.
pub open spec fn visible_chain_spec(downscale: Seq<char>) -> Seq<char> {
    match downscale_filter_spec(downscale) {
        Some(f) => f,
        None => "scale=w=iw:h=ih"@,
    }
}

/// The filter chain that blurs the video: it is scaled down to `mid` pixels wide
/// and back up (to the downscale width, or to 1920 without downscale).
pub open spec fn blur_chain_spec(downscale: Seq<char>, mid: nat) -> Seq<char> {
    let m = "scale=w="@ + decimal(mid) + ":h=-2"@;
    match downscale_filter_spec(downscale) {
        Some(f) => f + ","@ + m + ","@ + f,
        None => m + ",scale=w=1920:h=-2"@,
    }
}

/// The intermediate widths of a blur fade: shrinking when the blur comes on, growing
/// when it goes off.
pub open spec fn blur_widths(on: bool) -> Seq<u32> {
    if on {
        seq![320u32, 176u32, 96u32, 56u32]
    } else {
        seq![56u32, 96u32, 176u32, 320u32]
    }
}

/// The filter chain that shows the video without blur.
pub fn visible_chain(downscale: &str) -> (r: &'static str)
    ensures
        r@ == visible_chain_spec(downscale@),
{
    if same_text(downscale, "720p") {
        "scale=w=1280:h=-2"
    } else if same_text(downscale, "540p") {
        "scale=w=960:h=-2"
    } else {
        "scale=w=iw:h=ih"
    }
}

/// The filter chain that blurs the video through a width of `mid` pixels.
pub fn blur_chain(downscale: &str, mid: u32) -> (r: String)
    ensures
        r@ == blur_chain_spec(downscale@, mid as nat),
{
    let digits = decimal_u64(mid as u64);
    let m = String::from_str("scale=w=").concat(digits.as_str()).concat(":h=-2");
    if same_text(downscale, "720p") {
        String::from_str("scale=w=1280:h=-2").concat(",").concat(m.as_str()).concat(",").concat("scale=w=1280:h=-2")
    } else if same_text(downscale, "540p") {
        String::from_str("scale=w=960:h=-2").concat(",").concat(m.as_str()).concat(",").concat("scale=w=960:h=-2")
    } else {
        m.concat(",scale=w=1920:h=-2")
    }
}

/// The filter chains that fade the blur in or out, each followed by a short pause,
/// and the chain to settle on at the end (the unblurred one, when the blur goes off).
pub struct BlurPlan {
    pub steps: Vec<String>,
    pub settle: Option<&'static str>,
}

/// How to turn the blur on or off; nothing when it already is.
pub fn blur_plan(blur_on: bool, on: bool, downscale: &str) -> (r: Option<BlurPlan>)
    ensures
        on == blur_on ==> r is None,
        on != blur_on ==> (r matches Some(p) && {
            &&& p.steps@.len() == 4
            &&& forall|i: int| 0 <= i < 4 ==> (#[trigger] p.steps@[i])@ == blur_chain_spec(downscale@, blur_widths(on)[i] as nat)
            &&& on ==> p.settle is None
            &&& !on ==> (p.settle matches Some(c) && c@ == visible_chain_spec(downscale@))
        }),
{
    if on == blur_on {
        return None;
    }
    let widths: [u32; 4] = if on { [320, 176, 96, 56] } else { [56, 96, 176, 320] };
    assert(widths@ =~= blur_widths(on));
    let mut steps: Vec<String> = Vec::new();
    let mut i: usize = 0;
    while i < 4
        invariant
            i <= 4,
            widths@ == blur_widths(on),
            steps@.len() == i,
            forall|k: int| 0 <= k < i ==> (#[trigger] steps@[k])@ == blur_chain_spec(downscale@, widths@[k] as nat),
        decreases 4 - i,
    {
        steps.push(blur_chain(downscale, widths[i]));
        i += 1;
    }
    let settle = if on { None } else { Some(visible_chain(downscale)) };
    Some(BlurPlan { steps, settle })
}

/// What a player reports about itself; each property is `None` where it could
/// not be read.
pub struct StatusReadout {
    /// The player is idle (`idle-active`).
    pub idle: Option<bool>,
    /// Playback is paused.
    pub pause: Option<bool>,
    /// Audio is muted.
    pub mute: Option<bool>,
    /// `video-format`.
    pub video_format: Option<String>,
    /// `audio-format`.
    pub audio_format: Option<String>,
    /// `audio-codec`.
    pub audio_codec: Option<String>,
    /// The audio output (`ao`).
    pub ao: Option<String>,
    /// `audio-device`.
    pub audio_device: Option<String>,
    /// `volume`.
    pub volume: Option<String>,
    /// `hwdec-current`.
    pub hwdec_current: Option<String>,
    /// The playback time (`time-pos`), already written with two decimals.
    pub time_pos: Option<String>,
    /// `path`.
    pub path: Option<String>,
    /// The video output (`vo`).
    pub vo: Option<String>,
    /// `gpu-api`.
    pub gpu_api: Option<String>,
    /// `display-fps`.
    pub display_fps: Option<String>,
    /// `estimated-vf-fps`.
    pub estimated_vf_fps: Option<String>,
    /// The video filter chain (`vf`).
    pub vf: Option<String>,
    /// `video-unscaled`.
    pub video_unscaled: Option<String>,
    /// `keepaspect`.
    pub keepaspect: Option<bool>,
    /// `panscan`, already written with two decimals.
    pub panscan: Option<String>,
}

/// A flag in the status line: `on`, `off`, or `?` where it could not be read.
pub open spec fn flag_word(f: Option<bool>) -> Seq<char> {
    match f {
        Some(true) => "on"@,
        Some(false) => "off"@,
        None => "?"@,
    }
}

/// A property in the status line: its text, or nothing where it could not be read.
pub open spec fn or_empty(o: Option<String>) -> Seq<char> {
    match o {
        Some(t) => t@,
        None => Seq::empty(),
    }
}

/// The one-line status of a player: each property after its label, in a fixed
/// order.
pub open spec fn status_spec(r: StatusReadout) -> Seq<char> {
    "idle="@ + flag_word(r.idle)
        + " pause="@ + flag_word(r.pause)
        + " mute="@ + flag_word(r.mute)
        + " vfmt="@ + or_empty(r.video_format)
        + " afmt="@ + or_empty(r.audio_format)
        + " acodec="@ + or_empty(r.audio_codec)
        + " ao="@ + or_empty(r.ao)
        + " adev="@ + or_empty(r.audio_device)
        + " vol="@ + or_empty(r.volume)
        + " hwdec="@ + or_empty(r.hwdec_current)
        + " t="@ + or_empty(r.time_pos)
        + " path="@ + or_empty(r.path)
        + " | vo="@ + or_empty(r.vo)
        + " gpu-api="@ + or_empty(r.gpu_api)
        + " disp-fps="@ + or_empty(r.display_fps)
        + " out-fps="@ + or_empty(r.estimated_vf_fps)
        + " | vf="@ + or_empty(r.vf)
        + " fit: unscaled="@ + or_empty(r.video_unscaled)
        + " keepaspect="@ + flag_word(r.keepaspect)
        + " panscan="@ + or_empty(r.panscan)
}

fn flag_str(f: Option<bool>) -> (r: &'static str)
    ensures
        r@ == flag_word(f),
{
    match f {
        Some(true) => "on",
        Some(false) => "off",
        None => "?",
    }
}

fn append_opt(out: &mut String, o: &Option<String>)
    ensures
        final(out)@ == old(out)@ + or_empty(*o),
{
    match o {
        Some(t) => out.append(t.as_str()),
        None => {
            assert(old(out)@ + or_empty(*o) =~= old(out)@);
        },
    }
}

/// The status line that a player's readout gives, for the log.
pub fn status_text(r: &StatusReadout) -> (s: String)
    ensures
        s@ == status_spec(*r),
{
    let mut out = String::new();
    out.append("idle=");
    out.append(flag_str(r.idle));
    out.append(" pause=");
    out.append(flag_str(r.pause));
    out.append(" mute=");
    out.append(flag_str(r.mute));
    out.append(" vfmt=");
    append_opt(&mut out, &r.video_format);
    out.append(" afmt=");
    append_opt(&mut out, &r.audio_format);
    out.append(" acodec=");
    append_opt(&mut out, &r.audio_codec);
    out.append(" ao=");
    append_opt(&mut out, &r.ao);
    out.append(" adev=");
    append_opt(&mut out, &r.audio_device);
    out.append(" vol=");
    append_opt(&mut out, &r.volume);
    out.append(" hwdec=");
    append_opt(&mut out, &r.hwdec_current);
    out.append(" t=");
    append_opt(&mut out, &r.time_pos);
    out.append(" path=");
    append_opt(&mut out, &r.path);
    out.append(" | vo=");
    append_opt(&mut out, &r.vo);
    out.append(" gpu-api=");
    append_opt(&mut out, &r.gpu_api);
    out.append(" disp-fps=");
    append_opt(&mut out, &r.display_fps);
    out.append(" out-fps=");
    append_opt(&mut out, &r.estimated_vf_fps);
    out.append(" | vf=");
    append_opt(&mut out, &r.vf);
    out.append(" fit: unscaled=");
    append_opt(&mut out, &r.video_unscaled);
    out.append(" keepaspect=");
    out.append(flag_str(r.keepaspect));
    out.append(" panscan=");
    append_opt(&mut out, &r.panscan);
    assert(out@ =~= status_spec(*r));
    out
}

} // verus!
