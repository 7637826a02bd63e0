use live_wallpaper::player::{
    blur_chain, blur_plan, effective_hwdec, fit_plan, gpu_api, gpu_context, player_options,
    status_text, video_sync, visible_chain, FitStep, StatusReadout,
};

fn pairs(renderer: &str, lite: bool, vsync: bool, downscale: &str, hwdec: &str, blur: bool) -> Vec<(String, String)> {
    player_options(renderer, lite, vsync, downscale, hwdec, blur)
        .into_iter()
        .map(|o| (o.name.to_string(), o.value))
        .collect()
}

fn get(v: &[(String, String)], k: &str) -> Vec<String> {
    v.iter().filter(|(n, _)| n == k).map(|(_, x)| x.clone()).collect()
}

#[test]
fn default_player_options() {
    let v = pairs("d3d11", false, true, "off", "auto", false);
    assert_eq!(v.len(), 20);
    assert_eq!(v[0], ("idle".to_string(), "yes".to_string()));
    assert_eq!(get(&v, "hwdec"), vec!["auto"]);
    assert_eq!(get(&v, "gpu-api"), vec!["d3d11"]);
    assert!(get(&v, "gpu-context").is_empty());
    assert_eq!(get(&v, "video-sync"), vec!["display-resample"]);
    assert!(get(&v, "vf").is_empty());
    assert_eq!(get(&v, "audio-client-name"), vec!["LiveWallpaper"]);
}

#[test]
fn angle_lite_downscaled_options() {
    let v = pairs("angle", true, true, "540p", "auto", false);
    assert_eq!(get(&v, "gpu-api"), vec!["opengl"]);
    assert_eq!(get(&v, "gpu-context"), vec!["angle"]);
    assert_eq!(get(&v, "hwdec"), vec!["d3d11va-copy"]);
    assert_eq!(get(&v, "video-sync"), vec!["display"]);
    assert_eq!(get(&v, "override-display-fps"), vec!["30"]);
    assert_eq!(get(&v, "framedrop"), vec!["vo", "decoder"]);
    assert_eq!(get(&v, "vd-lavc-skiploopfilter"), vec!["nonkey"]);
    assert_eq!(get(&v, "vf"), vec!["scale=w=960:h=-2"]);
    assert_eq!(v.last().unwrap().0, "vf");
}

#[test]
fn hwdec_choice() {
    assert_eq!(effective_hwdec("vulkan", "auto", false), "d3d11va-copy");
    assert_eq!(effective_hwdec("d3d11", "auto", false), "auto");
    assert_eq!(effective_hwdec("d3d11", "auto", true), "d3d11va-copy");
    assert_eq!(effective_hwdec("d3d11", "d3d11va", true), "d3d11va-copy");
    assert_eq!(effective_hwdec("d3d11", "dxva2", true), "dxva2-copy");
    assert_eq!(effective_hwdec("d3d11", "off", true), "off");
    assert_eq!(effective_hwdec("d3d11", "dxva2", false), "dxva2");
    assert_eq!(gpu_api("vulkan"), "vulkan");
    assert_eq!(gpu_api("whatever"), "d3d11");
    assert_eq!(gpu_context("angle"), Some("angle"));
    assert_eq!(gpu_context("vulkan"), None);
    assert_eq!(video_sync(false, false), "audio");
}

fn steps(mode: &str) -> Vec<(String, String)> {
    fit_plan(mode)
        .into_iter()
        .map(|s| match s {
            FitStep::Flag { name, on } => (name.to_string(), if on { "yes".to_string() } else { "no".to_string() }),
            FitStep::Text { name, value } => (name.to_string(), value.to_string()),
        })
        .collect()
}

#[test]
fn fit_modes() {
    let s = |a: &str, b: &str| (a.to_string(), b.to_string());
    assert_eq!(steps("fill"), vec![s("keepaspect", "yes"), s("video-unscaled", "no"), s("panscan", "1.0"), s("video-align-x", "0"), s("video-align-y", "0")]);
    assert_eq!(steps("fit"), vec![s("keepaspect", "yes"), s("video-unscaled", "no"), s("panscan", "0"), s("video-align-x", "0"), s("video-align-y", "0")]);
    assert_eq!(steps("center"), vec![s("keepaspect", "yes"), s("video-unscaled", "yes"), s("video-align-x", "0"), s("video-align-y", "0")]);
    assert_eq!(steps("stretch"), vec![s("keepaspect", "no"), s("video-unscaled", "no"), s("panscan", "0")]);
    assert_eq!(steps("unknown"), steps("fill"));
}

#[test]
fn blur_chains() {
    assert_eq!(visible_chain("720p"), "scale=w=1280:h=-2");
    assert_eq!(visible_chain("540p"), "scale=w=960:h=-2");
    assert_eq!(visible_chain("off"), "scale=w=iw:h=ih");
    assert_eq!(blur_chain("off", 320), "scale=w=320:h=-2,scale=w=1920:h=-2");
    assert_eq!(blur_chain("720p", 56), "scale=w=1280:h=-2,scale=w=56:h=-2,scale=w=1280:h=-2");
    assert_eq!(blur_chain("540p", 96), "scale=w=960:h=-2,scale=w=96:h=-2,scale=w=960:h=-2");
}

#[test]
fn blur_fades() {
    assert!(blur_plan(true, true, "off").is_none());
    assert!(blur_plan(false, false, "off").is_none());
    let on = blur_plan(false, true, "off").unwrap();
    assert_eq!(on.steps, vec![blur_chain("off", 320), blur_chain("off", 176), blur_chain("off", 96), blur_chain("off", 56)]);
    assert_eq!(on.settle, None);
    let off = blur_plan(true, false, "720p").unwrap();
    assert_eq!(off.steps, vec![blur_chain("720p", 56), blur_chain("720p", 96), blur_chain("720p", 176), blur_chain("720p", 320)]);
    assert_eq!(off.settle, Some("scale=w=1280:h=-2"));
}

fn readout() -> StatusReadout {
    StatusReadout {
        idle: Some(false),
        pause: Some(true),
        mute: None,
        video_format: Some("h264".to_string()),
        audio_format: None,
        audio_codec: None,
        ao: Some("wasapi".to_string()),
        audio_device: None,
        volume: Some("50.000000".to_string()),
        hwdec_current: Some("d3d11va".to_string()),
        time_pos: Some("12.34".to_string()),
        path: Some("C:\\clips\\sea.mp4".to_string()),
        vo: Some("gpu".to_string()),
        gpu_api: Some("d3d11".to_string()),
        display_fps: None,
        estimated_vf_fps: Some("30.000000".to_string()),
        vf: Some(String::new()),
        video_unscaled: Some("no".to_string()),
        keepaspect: Some(true),
        panscan: None,
    }
}

#[test]
fn status_line() {
    assert_eq!(
        status_text(&readout()),
        "idle=off pause=on mute=? vfmt=h264 afmt= acodec= ao=wasapi adev= vol=50.000000 \
         hwdec=d3d11va t=12.34 path=C:\\clips\\sea.mp4 | vo=gpu gpu-api=d3d11 disp-fps= \
         out-fps=30.000000 | vf= fit: unscaled=no keepaspect=on panscan="
    );
}
