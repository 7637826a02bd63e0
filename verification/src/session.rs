use vstd::prelude::*;
use crate::desktop::Monitor;
use crate::text::{decimal_i64, same_text, signed_decimal};

verus! {

/// A request from the tray to the playback thread.
pub enum Cmd {
    Load { path: String },
    SetAudio { on: bool },
    SetVolume { v: i64 },
    SetFit { mode: String },
    SetRenderer { name: String },
    SetLite { on: bool },
    SetVsync { on: bool },
    SetDownscale { mode: String },
    SetHwdec { mode: String },
    Restart,
    Quit,
}

/// How a playback session ended.
#[derive(PartialEq, Eq, Structural, Clone, Copy, Debug)]
pub enum SessionResult {
    /// The program is quitting.
    Quit,
    /// The session is torn down and a new one is attached.
    Retry,
}

/// Why a session stops on its own, apart from a command from the tray.
#[derive(PartialEq, Eq, Structural, Clone, Copy, Debug)]
pub enum SessionEnd {
    /// No desktop window to attach the wallpaper to was found.
    NoHost,
    /// No wallpaper surface could be created.
    NoSurfaces,
    /// No renderer could start a player, or no player was created.
    NoPlayers,
    /// A wallpaper surface was destroyed (the shell restarted).
    SurfaceDestroyed,
    /// A player shut down.
    PlayerShutdown,
    /// The command channel closed: the tray side is gone.
    ChannelClosed,
}

/// What to do when a session stops.
#[derive(PartialEq, Eq, Structural, Clone, Copy, Debug)]
pub struct EndAction {
    /// How the session ended.
    pub result: SessionResult,
    /// Whether the playback position is saved first.
    pub save_position: bool,
    /// Whether the session's surfaces are destroyed.
    pub destroy_surfaces: bool,
}

/// How a session that stops on its own ends: a closed command channel quits the
/// program after saving the playback position; every other cause tears the session
/// down for a new attempt. Surfaces are destroyed wherever any were created.
pub fn session_end(why: SessionEnd) -> (r: EndAction)
    ensures
        r.result == (if why == SessionEnd::ChannelClosed { SessionResult::Quit } else { SessionResult::Retry }),
        r.save_position == (why == SessionEnd::ChannelClosed),
        r.destroy_surfaces == !(why == SessionEnd::NoHost || why == SessionEnd::NoSurfaces),
{
    match why {
        SessionEnd::NoHost | SessionEnd::NoSurfaces => EndAction {
            result: SessionResult::Retry,
            save_position: false,
            destroy_surfaces: false,
        },
        SessionEnd::ChannelClosed => EndAction {
            result: SessionResult::Quit,
            save_position: true,
            destroy_surfaces: true,
        },
        _ => EndAction { result: SessionResult::Retry, save_position: false, destroy_surfaces: true },
    }
}

/// The end-of-file reason that mpv gives when a file failed to play.
pub const MPV_END_FILE_REASON_ERROR: i32 = 4;

/// Number of consecutive samples with the playback time standing still after which
/// playback is reported as stuck.
pub const STUCK_SAMPLES: u32 = 4;

/// Number of loop iterations between two status samples.
pub const STATUS_PERIOD: u64 = 60;

/// The renderers tried, in this order, after the configured one.
pub open spec fn renderer_candidates() -> Seq<Seq<char>> {
    seq!["d3d11"@, "angle"@, "vulkan"@]
}

/// The renderers a session tries, in order: the configured one first, then each
/// built-in candidate that differs from it.
pub open spec fn renderer_chain_spec(renderer: Seq<char>) -> Seq<Seq<char>> {
    seq![renderer] + renderer_candidates().filter(|c: Seq<char>| c != renderer)
}

/// The views of a list of strings.
pub open spec fn texts(v: Seq<String>) -> Seq<Seq<char>> {
    v.map_values(|s: String| s@)
}

/// The renderers to try for a session, the configured one first.
pub fn renderer_chain(renderer: &str) -> (r: Vec<String>)
    ensures
        texts(r@) == renderer_chain_spec(renderer@),
{
    proof {
        reveal_strlit("d3d11");
        reveal_strlit("angle");
        reveal_strlit("vulkan");
    }
    let mut chain: Vec<String> = Vec::new();
    chain.push(String::from_str(renderer));
    let ghost cands = renderer_candidates();
    let ghost pred = |c: Seq<char>| c != renderer@;
    assert(cands.take(0).filter(pred) =~= Seq::<Seq<char>>::empty());
    assert(texts(chain@) =~= seq![renderer@] + cands.take(0).filter(pred));
    if !same_text(renderer, "d3d11") {
        chain.push(String::from_str("d3d11"));
    }
    proof {
        reveal_with_fuel(Seq::<_>::filter, 1);
        assert(cands.take(1).drop_last() =~= cands.take(0));
        assert(texts(chain@) =~= seq![renderer@] + cands.take(1).filter(pred));
    }
    if !same_text(renderer, "angle") {
        chain.push(String::from_str("angle"));
    }
    proof {
        reveal_with_fuel(Seq::<_>::filter, 1);
        assert(cands.take(2).drop_last() =~= cands.take(1));
        assert(texts(chain@) =~= seq![renderer@] + cands.take(2).filter(pred));
    }
    if !same_text(renderer, "vulkan") {
        chain.push(String::from_str("vulkan"));
    }
    proof {
        reveal_with_fuel(Seq::<_>::filter, 1);
        assert(cands.take(3).drop_last() =~= cands.take(2));
        assert(cands.take(3) =~= cands);
        assert(texts(chain@) =~= seq![renderer@] + cands.filter(pred));
    }
    chain
}

/// What to do after trying to start a player with the renderer at a position of
/// the session's renderer chain.
#[derive(PartialEq, Eq, Structural, Clone, Copy, Debug)]
pub enum RendererStep {
    /// The renderer at this position started: the session uses it for every surface.
    Use(usize),
    /// Try the renderer at this position next.
    Try(usize),
    /// No renderer of the chain started: the session ends (`SessionEnd::NoPlayers`).
    GiveUp,
}

/// The step after trying the renderer at `index` of a chain of `len` renderers.
pub open spec fn renderer_step_spec(len: int, index: int, started: bool) -> RendererStep {
    if started {
        RendererStep::Use(index as usize)
    } else if index + 1 < len {
        RendererStep::Try((index + 1) as usize)
    } else {
        RendererStep::GiveUp
    }
}

/// The step after trying the renderer at `index` of a chain of `len` renderers:
/// use it where it started, otherwise try the next one, or give up after the last.
pub fn renderer_step(len: usize, index: usize, started: bool) -> (r: RendererStep)
    requires
        index < len,
    ensures
        r == renderer_step_spec(len as int, index as int, started),
{
    if started {
        RendererStep::Use(index)
    } else if index + 1 < len {
        RendererStep::Try(index + 1)
    } else {
        RendererStep::GiveUp
    }
}

/// The renderer a session ends up with when it follows the steps from position `i`
/// and each renderer starts or not as `started` says; `None` where it gives up.
pub open spec fn renderer_search(started: Seq<bool>, i: int) -> Option<int>
    decreases started.len() - i,
{
    if i < 0 || i >= started.len() {
        None
    } else {
        match renderer_step_spec(started.len() as int, i, started[i]) {
            RendererStep::Use(k) => Some(k as int),
            RendererStep::Try(k) => if k as int > i { renderer_search(started, k as int) } else { None },
            RendererStep::GiveUp => None,
        }
    }
}

/// Following the renderer steps from the start of the chain uses the first renderer
/// that starts, and gives up exactly when none of them starts.
pub proof fn law_fallback_uses_first_renderer_that_starts(started: Seq<bool>)
    requires
        started.len() <= usize::MAX,
    ensures
        renderer_search(started, 0) matches Some(k) ==> 0 <= k < started.len() && started[k]
            && forall|j: int| 0 <= j < k ==> !started[j],
        renderer_search(started, 0) is None <==> forall|j: int| 0 <= j < started.len() ==> !started[j],
{
    lemma_renderer_search_from(started, 0);
}

proof fn lemma_renderer_search_from(started: Seq<bool>, i: int)
    requires
        0 <= i,
        started.len() <= usize::MAX,
    ensures
        renderer_search(started, i) matches Some(k) ==> i <= k < started.len() && started[k]
            && forall|j: int| i <= j < k ==> !started[j],
        renderer_search(started, i) is None <==> forall|j: int| i <= j < started.len() ==> !started[j],
    decreases started.len() - i,
{
    if i < started.len() && !started[i] {
        lemma_renderer_search_from(started, i + 1);
    }
}

/// `k` is the position of the first monitor flagged as the primary one.
pub open spec fn is_first_primary(ms: Seq<Monitor>, k: int) -> bool {
    &&& 0 <= k < ms.len()
    &&& ms[k].primary
    &&& forall|j: int| 0 <= j < k ==> !(#[trigger] ms[j]).primary
}

/// Some monitor in the list is flagged as the primary one.
pub open spec fn has_primary(ms: Seq<Monitor>) -> bool {
    exists|k: int| 0 <= k < ms.len() && (#[trigger] ms[k]).primary
}

/// The monitors a session covers: all of them in "all" mode; otherwise the primary
/// monitor alone (the first one listed where none carries the primary flag, and none
/// where the list is empty).
pub fn select_monitors(mode: &str, monitors: Vec<Monitor>) -> (r: Vec<Monitor>)
    ensures
        mode@ == "all"@ ==> r@ == monitors@,
        mode@ != "all"@ && has_primary(monitors@) ==> exists|k: int|
            is_first_primary(monitors@, k) && r@ == seq![monitors@[k]],
        mode@ != "all"@ && !has_primary(monitors@) ==> r@ == monitors@.take(
            if monitors@.len() == 0 { 0 } else { 1 },
        ),
{
    if same_text(mode, "all") {
        return monitors;
    }
    let mut i: usize = 0;
    while i < monitors.len()
        invariant
            mode@ != "all"@,
            i <= monitors@.len(),
            forall|j: int| 0 <= j < i ==> !(#[trigger] monitors@[j]).primary,
        decreases monitors@.len() - i,
    {
        if monitors[i].primary {
            let chosen = vec![monitors[i]];
            assert(is_first_primary(monitors@, i as int));
            assert(chosen@ =~= seq![monitors@[i as int]]);
            return chosen;
        }
        i += 1;
    }
    let mut m = monitors;
    m.truncate(1);
    m
}

/// Whether the player at a position in the session plays audio: only the first
/// one, and only when audio is on.
pub fn player_audio(audio_on: bool, index: usize) -> (r: bool)
    ensures
        r == (audio_on && index == 0),
{
    audio_on && index == 0
}

/// Whether the player at a position is muted after an audio toggle: every player
/// but the first, and the first too when audio is off.
pub fn player_muted(audio_on: bool, index: usize) -> (r: bool)
    ensures
        r == (!audio_on || index != 0),
{
    !audio_on || index != 0
}

/// Resident memory in whole mebibytes.
pub fn working_set_mb(bytes: usize) -> (r: i64)
    ensures
        r == bytes as int / 1048576,
{
    (bytes / (1024 * 1024)) as i64
}

/// Whether the machine runs on its battery: the battery is present (its flag is
/// not "no system battery", 0x80) and the AC line is offline (status 0).
pub fn battery_discharging(battery_flag: u8, ac_line_status: u8) -> (r: bool)
    ensures
        r == (battery_flag != 0x80 && ac_line_status == 0),
{
    battery_flag != 0x80 && ac_line_status == 0
}

/// The view of an optional string.
pub open spec fn opt_text(o: Option<String>) -> Option<Seq<char>> {
    match o {
        Some(s) => Some(s@),
        None => None,
    }
}

/// Whether reporting `msg` raises a notification: only when it differs from the
/// error already shown.
pub open spec fn report_notifies(state: Option<Seq<char>>, msg: Seq<char>) -> bool {
    state != Some(msg)
}

/// Records an error as the current one and says whether the user must be notified
/// of it: a message equal to the error already shown raises no second notification.
pub fn report_error(error_state: &mut Option<String>, msg: String) -> (notify: bool)
    ensures
        notify == report_notifies(opt_text(*old(error_state)), msg@),
        opt_text(*final(error_state)) == Some(msg@),
{
    let notify = notifies(error_state, &msg);
    *error_state = Some(msg);
    notify
}

fn notifies(error_state: &Option<String>, msg: &String) -> (r: bool)
    ensures
        r == report_notifies(opt_text(*error_state), msg@),
{
    match error_state {
        Some(e) => !(*e == *msg),
        None => true,
    }
}

/// Reporting the same error twice in a row notifies at most once: after a report,
/// the same message raises no notification.
pub proof fn law_repeated_error_notifies_once(msg: Seq<char>)
    ensures
        !report_notifies(Some(msg), msg),
{
}

/// A message that mpv logged.
pub struct LogMsg {
    pub level: String,
    pub text: String,
}

/// The text of an mpv error code: mpv's own description where it gives one,
/// otherwise "mpv error" and the code.
pub fn mpv_error_text(code: i32, description: Option<String>) -> (r: String)
    ensures
        description matches Some(d) ==> r@ == d@,
        description is None ==> r@ == "mpv error "@ + signed_decimal(code as int),
{
    match description {
        Some(d) => d,
        None => {
            let digits = decimal_i64(code as i64);
            String::from_str("mpv error ").concat(digits.as_str())
        },
    }
}

/// An error to log, and whether to show it as a tray balloon.
pub struct ErrorReport {
    pub message: String,
    pub notify: bool,
}

/// The file named in an error: the player's own path where it has a nonempty one,
/// else the path the session loaded, else "?".
pub open spec fn error_path_spec(mpv_path: Option<Seq<char>>, current: Option<Seq<char>>) -> Seq<char> {
    match mpv_path {
        Some(p) if p.len() > 0 => p,
        _ => match current {
            Some(c) => c,
            None => "?"@,
        },
    }
}

fn error_path(mpv_path: Option<String>, current: &Option<String>) -> (r: String)
    ensures
        r@ == error_path_spec(opt_text(mpv_path), opt_text(*current)),
{
    proof {
        reveal_strlit("?");
    }
    match mpv_path {
        Some(p) if p.as_str().unicode_len() > 0 => p,
        _ => match current {
            Some(c) => c.clone(),
            None => String::from_str("?"),
        },
    }
}

/// What a status sample saw of the first player.
pub struct StatusSample {
    pub paused: bool,
    pub idle: bool,
    /// The playback time could be read and is not negative.
    pub time_known: bool,
    /// The playback time differs from the previous sample's by at least 0.01 s.
    pub time_advanced: bool,
}

/// The part of a session that watches for stuck playback.
#[derive(Clone, Copy, Debug)]
pub struct StuckWatch {
    pub file_loaded: bool,
    pub streak: u32,
    /// A previous sample's playback time is being held for comparison.
    pub has_last_time: bool,
}

/// Whether a sample is one where playback should be moving: a file is loaded, the
/// player is neither paused nor idle, and the time is known.
pub open spec fn sample_active(w: StuckWatch, s: StatusSample) -> bool {
    w.file_loaded && !s.paused && !s.idle && s.time_known
}

/// One status sample: while playback should be moving, a sample whose time did not
/// advance since the previous one extends the streak, and the fourth such sample in
/// a row reports playback as stuck and starts a new streak; any other sample ends the
/// streak. The sample's time is held for the next comparison exactly when playback
/// should be moving.
pub open spec fn stuck_step(w: StuckWatch, s: StatusSample) -> (StuckWatch, bool) {
    if sample_active(w, s) {
        if w.has_last_time && !s.time_advanced {
            if w.streak + 1 >= STUCK_SAMPLES {
                (StuckWatch { streak: 0, has_last_time: true, ..w }, true)
            } else {
                (StuckWatch { streak: (w.streak + 1) as u32, has_last_time: true, ..w }, false)
            }
        } else {
            (StuckWatch { streak: 0, has_last_time: true, ..w }, false)
        }
    } else {
        (StuckWatch { streak: 0, has_last_time: false, ..w }, false)
    }
}

/// What the visibility check asks of the players.
pub struct VisibilityChange {
    /// Pause (`Some(true)`) or resume (`Some(false)`) every player.
    pub pause: Option<bool>,
    /// Turn the blur on or off on every player.
    pub blur: Option<bool>,
}

/// The mutable state of one playback session.
pub struct Session {
    current_path: Option<String>,
    pause_state: bool,
    blur_state: bool,
    error_state: Option<String>,
    watch: StuckWatch,
    iteration: u64,
}

/// What a session holds, as plain values.
pub struct SessionView {
    /// The file the session last loaded.
    pub current_path: Option<Seq<char>>,
    /// Whether the players are paused.
    pub pause_state: bool,
    /// Whether the desktop was last seen hidden by a fullscreen or maximized window.
    pub blur_state: bool,
    /// The error currently shown, if any.
    pub error_state: Option<Seq<char>>,
    /// The stuck-playback watch.
    pub watch: StuckWatch,
    /// Loop iterations since the session started.
    pub iteration: u64,
}

impl View for Session {
    type V = SessionView;

    closed spec fn view(&self) -> SessionView {
        SessionView {
            current_path: opt_text(self.current_path),
            pause_state: self.pause_state,
            blur_state: self.blur_state,
            error_state: opt_text(self.error_state),
            watch: self.watch,
            iteration: self.iteration,
        }
    }
}

/// A session's invariant: a streak of stalled samples is always shorter than the
/// number that reports playback as stuck.
pub open spec fn watch_wf(w: StuckWatch) -> bool {
    w.streak < STUCK_SAMPLES
}

/// What the session does with a request from the tray.
pub enum CmdAction {
    /// Load this file in every player.
    LoadFile(String),
    /// Turn audio on or off (see `player_muted`).
    SetAudio(bool),
    /// Set every player's volume.
    SetVolume(i64),
    /// Apply this fit mode to every player.
    SetFit(String),
    /// End the session as the action says.
    End(EndAction),
}

/// Whether a request only makes sense with a fresh session (renderer, lite mode,
/// v-sync, downscale, hardware decode or monitor mode changed).
pub open spec fn needs_restart(cmd: Cmd) -> bool {
    match cmd {
        Cmd::SetRenderer { .. } | Cmd::SetLite { .. } | Cmd::SetVsync { .. }
        | Cmd::SetDownscale { .. } | Cmd::SetHwdec { .. } | Cmd::Restart => true,
        _ => false,
    }
}

/// What the visibility check concludes: `(paused, hidden, change)`. The players are
/// paused exactly while the desktop is covered (smart pause on and the desktop hidden)
/// or the machine runs on battery with battery pause on; a pause or resume is issued
/// only when that changes. The blur follows the desktop being hidden: on a change it
/// is turned on when the desktop became hidden and blur is enabled, and off otherwise.
pub open spec fn visibility_step(
    pause_state: bool,
    blur_state: bool,
    smart_pause: bool,
    blur_when_hidden: bool,
    pause_on_battery: bool,
    desktop_covered: bool,
    on_battery: bool,
) -> (bool, bool, VisibilityChange) {
    let hidden = smart_pause && desktop_covered;
    let covered = hidden || (pause_on_battery && on_battery);
    (
        covered,
        hidden,
        VisibilityChange {
            pause: if covered != pause_state { Some(covered) } else { None },
            blur: if hidden != blur_state { Some(hidden && blur_when_hidden) } else { None },
        },
    )
}

/// The text of the stuck-playback error.
pub open spec fn stuck_message(mpv_path: Option<Seq<char>>) -> Seq<char> {
    "playback appears stuck (time not advancing): "@ + match mpv_path {
        Some(p) => p,
        None => "?"@,
    }
}

/// The text of the error for a file without a video stream.
pub open spec fn no_video_message(path: Seq<char>) -> Seq<char> {
    "no video stream found in: "@ + path + " (audio-only file?)"@
}

/// The text of the error for a file that failed to load.
pub open spec fn load_failed_message(path: Seq<char>) -> Seq<char> {
    "video failed to load (unsupported or corrupt): "@ + path
}

/// The word for the player's state in the tray tip.
pub open spec fn playback_state_spec(idle: bool, paused: bool) -> Seq<char> {
    if idle {
        "idle"@
    } else if paused {
        "paused"@
    } else {
        "playing"@
    }
}

/// The tray tip: the current error where there is one, otherwise the player's state,
/// its frame rate and the memory in use.
pub open spec fn tip_spec(error: Option<Seq<char>>, state: Seq<char>, fps: Seq<char>, ram_mb: int) -> Seq<char> {
    match error {
        Some(e) => "Live Wallpaper | ERROR: "@ + e,
        None => "Live Wallpaper | "@ + state + " | "@ + fps + " fps | "@ + signed_decimal(ram_mb) + " MB"@,
    }
}

/// The word for the player's state in the tray tip.
pub fn playback_state(idle: bool, paused: bool) -> (r: &'static str)
    ensures
        r@ == playback_state_spec(idle, paused),
{
    if idle {
        "idle"
    } else if paused {
        "paused"
    } else {
        "playing"
    }
}

impl Session {
    /// A session's stalled-sample streak stays below the number that reports
    /// playback as stuck.
    #[verifier::type_invariant]
    spec fn inv(self) -> bool {
        watch_wf(self.watch)
    }

    /// A new session, which has loaded `current_path` if any.
    pub fn new(current_path: Option<String>) -> (s: Session)
        ensures
            s@.current_path == opt_text(current_path),
            !s@.pause_state,
            !s@.blur_state,
            s@.error_state is None,
            !s@.watch.file_loaded,
            s@.watch.streak == 0,
            !s@.watch.has_last_time,
            s@.iteration == 0,
    {
        Session {
            current_path,
            pause_state: false,
            blur_state: false,
            error_state: None,
            watch: StuckWatch { file_loaded: false, streak: 0, has_last_time: false },
            iteration: 0,
        }
    }

    /// Counts one loop iteration and says whether a status sample is due, which is
    /// every sixtieth iteration.
    pub fn tick(&mut self) -> (due: bool)
        requires
            old(self)@.iteration < u64::MAX,
        ensures
            final(self)@.iteration == old(self)@.iteration + 1,
            due == (final(self)@.iteration % STATUS_PERIOD == 0),
            final(self)@.watch == old(self)@.watch,
            final(self)@.pause_state == old(self)@.pause_state,
            final(self)@.blur_state == old(self)@.blur_state,
            final(self)@.error_state == old(self)@.error_state,
            final(self)@.current_path == old(self)@.current_path,
    {
        proof {
            use_type_invariant(&*self);
        }
        self.iteration = self.iteration + 1;
        self.iteration % STATUS_PERIOD == 0
    }

    /// Takes in a request from the tray: a load becomes the session's current file.
    pub fn on_command(&mut self, cmd: &Cmd) -> (a: CmdAction)
        ensures
            final(self)@.watch == old(self)@.watch,
            final(self)@.pause_state == old(self)@.pause_state,
            final(self)@.blur_state == old(self)@.blur_state,
            final(self)@.iteration == old(self)@.iteration,
            final(self)@.error_state == old(self)@.error_state,
            match *cmd {
                Cmd::Load { path } => final(self)@.current_path == Some(path@),
                _ => final(self)@.current_path == old(self)@.current_path,
            },
            match *cmd {
                Cmd::Load { path } => a matches CmdAction::LoadFile(p) && p@ == path@,
                Cmd::SetAudio { on } => a == CmdAction::SetAudio(on),
                Cmd::SetVolume { v } => a == CmdAction::SetVolume(v),
                Cmd::SetFit { mode } => a matches CmdAction::SetFit(m) && m@ == mode@,
                Cmd::Quit => a == (CmdAction::End(EndAction { result: SessionResult::Quit, save_position: true, destroy_surfaces: true })),
                _ => needs_restart(*cmd)
                    && a == (CmdAction::End(EndAction { result: SessionResult::Retry, save_position: false, destroy_surfaces: true })),
            },
    {
        proof {
            use_type_invariant(&*self);
        }
        match cmd {
            Cmd::Load { path } => {
                self.current_path = Some(path.clone());
                CmdAction::LoadFile(path.clone())
            },
            Cmd::SetAudio { on } => CmdAction::SetAudio(*on),
            Cmd::SetVolume { v } => CmdAction::SetVolume(*v),
            Cmd::SetFit { mode } => CmdAction::SetFit(mode.clone()),
            Cmd::Quit => CmdAction::End(EndAction { result: SessionResult::Quit, save_position: true, destroy_surfaces: true }),
            _ => CmdAction::End(EndAction { result: SessionResult::Retry, save_position: false, destroy_surfaces: true }),
        }
    }

    /// The periodic check of the desktop's visibility and the power source.
    pub fn on_visibility_check(
        &mut self,
        smart_pause: bool,
        blur_when_hidden: bool,
        pause_on_battery: bool,
        desktop_covered: bool,
        on_battery: bool,
    ) -> (c: VisibilityChange)
        ensures
            (final(self)@.pause_state, final(self)@.blur_state, c) == visibility_step(
                old(self)@.pause_state,
                old(self)@.blur_state,
                smart_pause,
                blur_when_hidden,
                pause_on_battery,
                desktop_covered,
                on_battery,
            ),
            final(self)@.watch == old(self)@.watch,
            final(self)@.iteration == old(self)@.iteration,
            final(self)@.error_state == old(self)@.error_state,
            final(self)@.current_path == old(self)@.current_path,
    {
        proof {
            use_type_invariant(&*self);
        }
        let hidden = smart_pause && desktop_covered;
        let covered = hidden || (pause_on_battery && on_battery);
        let pause = if covered != self.pause_state {
            self.pause_state = covered;
            Some(covered)
        } else {
            None
        };
        let blur = if hidden != self.blur_state {
            self.blur_state = hidden;
            Some(hidden && blur_when_hidden)
        } else {
            None
        };
        VisibilityChange { pause, blur }
    }

    /// A status sample of the first player; says whether playback is to be reported
    /// as stuck.
    pub fn on_status_sample(&mut self, sample: StatusSample) -> (stuck: bool)
        ensures
            (final(self)@.watch, stuck) == stuck_step(old(self)@.watch, sample),
            final(self)@.pause_state == old(self)@.pause_state,
            final(self)@.blur_state == old(self)@.blur_state,
            final(self)@.iteration == old(self)@.iteration,
            final(self)@.error_state == old(self)@.error_state,
            final(self)@.current_path == old(self)@.current_path,
    {
        proof {
            use_type_invariant(&*self);
        }
        let active = self.watch.file_loaded && !sample.paused && !sample.idle && sample.time_known;
        if active {
            if self.watch.has_last_time && !sample.time_advanced {
                self.watch.has_last_time = true;
                if self.watch.streak + 1 >= STUCK_SAMPLES {
                    self.watch.streak = 0;
                    true
                } else {
                    self.watch.streak = self.watch.streak + 1;
                    false
                }
            } else {
                self.watch.streak = 0;
                self.watch.has_last_time = true;
                false
            }
        } else {
            self.watch.streak = 0;
            self.watch.has_last_time = false;
            false
        }
    }

    /// Reports playback as stuck, naming the player's path (or "?" where it has none).
    pub fn report_stuck(&mut self, mpv_path: Option<String>) -> (r: ErrorReport)
        ensures
            r.message@ == stuck_message(opt_text(mpv_path)),
            r.notify == report_notifies(old(self)@.error_state, r.message@),
            final(self)@.error_state == Some(r.message@),
            final(self)@.watch == old(self)@.watch,
            final(self)@.pause_state == old(self)@.pause_state,
            final(self)@.blur_state == old(self)@.blur_state,
            final(self)@.iteration == old(self)@.iteration,
            final(self)@.current_path == old(self)@.current_path,
    {
        proof {
            use_type_invariant(&*self);
        }
        proof {
            reveal_strlit("?");
        }
        let path = match mpv_path {
            Some(p) => p,
            None => String::from_str("?"),
        };
        let message = String::from_str("playback appears stuck (time not advancing): ").concat(path.as_str());
        let shown = message.clone();
        let notify = notifies(&self.error_state, &message);
            self.error_state = Some(message);
        ErrorReport { message: shown, notify }
    }

    /// A file finished loading. Without a video format it is reported as holding no
    /// video stream; otherwise any error shown is cleared. Stuck detection starts over.
    pub fn on_file_loaded(&mut self, video_format: Option<String>, mpv_path: Option<String>) -> (r: Option<ErrorReport>)
        ensures
            final(self)@.watch == (StuckWatch { file_loaded: true, streak: 0, has_last_time: false }),
            match video_format {
                Some(f) if f@.len() > 0 => r is None && final(self)@.error_state is None,
                _ => r matches Some(e) && e.message@ == no_video_message(
                    error_path_spec(opt_text(mpv_path), old(self)@.current_path),
                ) && e.notify == report_notifies(old(self)@.error_state, e.message@)
                    && final(self)@.error_state == Some(e.message@),
            },
            final(self)@.pause_state == old(self)@.pause_state,
            final(self)@.blur_state == old(self)@.blur_state,
            final(self)@.iteration == old(self)@.iteration,
            final(self)@.current_path == old(self)@.current_path,
    {
        proof {
            use_type_invariant(&*self);
        }
        self.watch = StuckWatch { file_loaded: true, streak: 0, has_last_time: false };
        let has_video = match &video_format {
            Some(f) => f.as_str().unicode_len() > 0,
            None => false,
        };
        if has_video {
            self.error_state = None;
            None
        } else {
            let path = error_path(mpv_path, &self.current_path);
            let message = String::from_str("no video stream found in: ").concat(path.as_str()).concat(" (audio-only file?)");
            let shown = message.clone();
            let notify = notifies(&self.error_state, &message);
            self.error_state = Some(message);
            Some(ErrorReport { message: shown, notify })
        }
    }

    /// A file ended. When it ended because it failed to play, the failure is reported
    /// and stuck detection stops until a file loads again.
    pub fn on_end_file(&mut self, reason: i32, mpv_path: Option<String>) -> (r: Option<ErrorReport>)
        ensures
            reason == MPV_END_FILE_REASON_ERROR ==> {
                &&& final(self)@.watch == (StuckWatch { file_loaded: false, ..old(self)@.watch })
                &&& r matches Some(e)
                &&& e.message@ == load_failed_message(
                    error_path_spec(opt_text(mpv_path), old(self)@.current_path))
                &&& e.notify == report_notifies(old(self)@.error_state, e.message@)
                &&& final(self)@.error_state == Some(e.message@)
            },
            reason != MPV_END_FILE_REASON_ERROR ==> {
                &&& r is None
                &&& final(self)@.watch == old(self)@.watch
                &&& final(self)@.error_state == old(self)@.error_state
            },
            final(self)@.pause_state == old(self)@.pause_state,
            final(self)@.blur_state == old(self)@.blur_state,
            final(self)@.iteration == old(self)@.iteration,
            final(self)@.current_path == old(self)@.current_path,
    {
        proof {
            use_type_invariant(&*self);
        }
        if reason == MPV_END_FILE_REASON_ERROR {
            self.watch.file_loaded = false;
            let path = error_path(mpv_path, &self.current_path);
            let message = String::from_str("video failed to load (unsupported or corrupt): ").concat(path.as_str());
            let shown = message.clone();
            let notify = notifies(&self.error_state, &message);
            self.error_state = Some(message);
            Some(ErrorReport { message: shown, notify })
        } else {
            None
        }
    }

    /// The tray tip for the session, from the player's state word, its frame rate
    /// already written out, and the memory in use.
    pub fn tip_text(&self, state: &str, fps: &str, ram_mb: i64) -> (r: String)
        ensures
            r@ == tip_spec(self@.error_state, state@, fps@, ram_mb as int),
    {
        match &self.error_state {
            Some(e) => String::from_str("Live Wallpaper | ERROR: ").concat(e.as_str()),
            None => {
                let ram = decimal_i64(ram_mb);
                String::from_str("Live Wallpaper | ").concat(state).concat(" | ").concat(fps)
                    .concat(" fps | ").concat(ram.as_str()).concat(" MB")
            },
        }
    }

    /// Whether the players are paused.
    pub fn pause_state(&self) -> (r: bool)
        ensures
            r == self@.pause_state,
    {
        self.pause_state
    }

    /// Whether the desktop was last seen hidden.
    pub fn blur_state(&self) -> (r: bool)
        ensures
            r == self@.blur_state,
    {
        self.blur_state
    }

    /// Loop iterations since the session started.
    pub fn iteration(&self) -> (r: u64)
        ensures
            r == self@.iteration,
    {
        self.iteration
    }

    /// The stuck-playback watch.
    pub fn watch(&self) -> (r: StuckWatch)
        ensures
            r == self@.watch,
    {
        self.watch
    }

    /// The file the session last loaded.
    pub fn current_path(&self) -> (r: &Option<String>)
        ensures
            opt_text(*r) == self@.current_path,
    {
        &self.current_path
    }

    /// The error currently shown, if any.
    pub fn error_state(&self) -> (r: &Option<String>)
        ensures
            opt_text(*r) == self@.error_state,
    {
        &self.error_state
    }
}

/// Smart pause across two checks: after each check the players are paused exactly
/// while the desktop is covered (or battery pause applies), and the second check
/// pauses or resumes them exactly when that changed since the first.
pub proof fn law_pause_follows_cover(
    pause0: bool,
    blur0: bool,
    smart1: bool, blur1: bool, battery1: bool, covered1: bool, on_battery1: bool,
    smart2: bool, blur2: bool, battery2: bool, covered2: bool, on_battery2: bool,
)
    ensures ({
        let (p1, h1, c1) = visibility_step(pause0, blur0, smart1, blur1, battery1, covered1, on_battery1);
        let (p2, h2, c2) = visibility_step(p1, h1, smart2, blur2, battery2, covered2, on_battery2);
        let cov1 = (smart1 && covered1) || (battery1 && on_battery1);
        let cov2 = (smart2 && covered2) || (battery2 && on_battery2);
        &&& p1 == cov1
        &&& p2 == cov2
        &&& c2.pause == if cov2 != cov1 { Some(cov2) } else { None }
    }),
{
}

/// The blur is only ever turned on while the desktop is hidden behind a fullscreen or
/// maximized window with smart pause and blur both enabled, and it is turned off as
/// soon as the desktop shows again.
pub proof fn law_blur_only_while_hidden(
    pause0: bool, blur0: bool, smart: bool, blur: bool, battery: bool, covered: bool, on_battery: bool,
)
    ensures ({
        let (p, h, c) = visibility_step(pause0, blur0, smart, blur, battery, covered, on_battery);
        &&& c.blur == Some(true) ==> smart && covered && blur
        &&& (blur0 && !(smart && covered)) ==> c.blur == Some(false)
    }),
{
}

/// Whether the blur changes, and to what, depends only on whether the desktop is
/// hidden and on the blur setting, never on the battery: two checks that differ
/// only in the battery settings and power source change the blur alike. A check
/// that finds the desktop newly hidden with the blur enabled turns the blur on.
pub proof fn law_blur_ignores_battery(
    pause0: bool, blur0: bool, smart: bool, blur: bool, covered: bool,
    battery1: bool, on_battery1: bool, battery2: bool, on_battery2: bool,
)
    ensures ({
        let (p1, h1, c1) = visibility_step(pause0, blur0, smart, blur, battery1, covered, on_battery1);
        let (p2, h2, c2) = visibility_step(pause0, blur0, smart, blur, battery2, covered, on_battery2);
        &&& h1 == (smart && covered)
        &&& h1 == h2
        &&& c1.blur == c2.blur
        &&& (c1.blur is Some <==> (smart && covered) != blur0)
        &&& (!blur0 && smart && covered && blur) ==> c1.blur == Some(true)
        &&& c1.blur matches Some(b) ==> b == (smart && covered && blur)
    }),
{
}

/// A sample that is not a stall ends any streak of stalled samples and reports
/// nothing: one taken while playback should not be moving, one whose time advanced,
/// or the first one after playback started moving (no earlier time is held). So a
/// stuck report needs four stalled samples with no other sample between them.
pub proof fn law_advancing_sample_ends_streak(w: StuckWatch, s: StatusSample)
    requires
        !sample_active(w, s) || s.time_advanced || !w.has_last_time,
    ensures
        stuck_step(w, s).0.streak == 0,
        !stuck_step(w, s).1,
{
}

/// Every sample keeps whether a file is loaded, and holds its time for the next
/// comparison exactly when playback should be moving.
pub proof fn law_sample_holds_time_while_active(w: StuckWatch, s: StatusSample)
    ensures
        stuck_step(w, s).0.file_loaded == w.file_loaded,
        stuck_step(w, s).0.has_last_time == sample_active(w, s),
{
}

/// A stalled sample (playback should be moving, a previous time is held, and the
/// time did not advance) adds one to the streak, or, ending the fourth stall in a
/// row, reports playback as stuck and starts over.
pub proof fn law_stalled_sample_counts(w: StuckWatch, s: StatusSample)
    requires
        watch_wf(w),
        sample_active(w, s),
        w.has_last_time,
        !s.time_advanced,
    ensures
        stuck_step(w, s).1 <==> w.streak + 1 == STUCK_SAMPLES,
        !stuck_step(w, s).1 ==> stuck_step(w, s).0.streak == w.streak + 1,
        stuck_step(w, s).1 ==> stuck_step(w, s).0.streak == 0,
{
}

/// The stuck watch never holds a streak of four or more: every step from a valid
/// watch gives a valid one.
pub proof fn law_stuck_streak_bounded(w: StuckWatch, s: StatusSample)
    requires
        watch_wf(w),
    ensures
        watch_wf(stuck_step(w, s).0),
{
}

/// A stuck report comes only at the end of four stalled samples in a row: the
/// sample that reports is stalled and follows a streak of three.
pub proof fn law_stuck_report_needs_streak(w: StuckWatch, s: StatusSample)
    requires
        watch_wf(w),
        stuck_step(w, s).1,
    ensures
        sample_active(w, s),
        w.has_last_time,
        !s.time_advanced,
        w.streak == STUCK_SAMPLES - 1,
{
}

/// Playback that stands still while it should be moving is reported on the fourth
/// stalled sample after a fresh start, and not before.
pub proof fn law_stalled_playback_reported_on_fourth_sample(w0: StuckWatch, stalled: StatusSample)
    requires
        w0.file_loaded,
        w0.has_last_time,
        w0.streak == 0,
        !stalled.paused,
        !stalled.idle,
        stalled.time_known,
        !stalled.time_advanced,
    ensures ({
        let (w1, r1) = stuck_step(w0, stalled);
        let (w2, r2) = stuck_step(w1, stalled);
        let (w3, r3) = stuck_step(w2, stalled);
        let (w4, r4) = stuck_step(w3, stalled);
        !r1 && !r2 && !r3 && r4 && w4.streak == 0
    }),
{
}

/// The renderer chain tries the configured renderer first, never tries one twice,
/// and tries each built-in renderer.
pub proof fn law_renderer_chain_complete(renderer: Seq<char>)
    ensures ({
        let chain = renderer_chain_spec(renderer);
        &&& chain.len() >= 1
        &&& chain[0] == renderer
        &&& forall|i: int, j: int| 0 <= i < j < chain.len() ==> chain[i] != chain[j]
        &&& forall|k: int| 0 <= k < 3 ==> chain.contains(#[trigger] renderer_candidates()[k])
    }),
{
    reveal_strlit("d3d11");
    reveal_strlit("angle");
    reveal_strlit("vulkan");
    reveal_with_fuel(Seq::<_>::filter, 4);
    let cands = renderer_candidates();
    let pred = |c: Seq<char>| c != renderer;
    assert(cands.drop_last().drop_last().drop_last() =~= Seq::<Seq<char>>::empty());
    let chain = renderer_chain_spec(renderer);
    assert(cands[0][0] == 'd' && cands[1][0] == 'a' && cands[2][0] == 'v');
    assert(cands[0] != cands[1] && cands[0] != cands[2] && cands[1] != cands[2]);
    if renderer == cands[0] {
        assert(cands.filter(pred) =~= seq![cands[1], cands[2]]);
    } else if renderer == cands[1] {
        assert(cands.filter(pred) =~= seq![cands[0], cands[2]]);
    } else if renderer == cands[2] {
        assert(cands.filter(pred) =~= seq![cands[0], cands[1]]);
    } else {
        assert(cands.filter(pred) =~= cands);
    }
    assert forall|k: int| 0 <= k < 3 implies chain.contains(#[trigger] cands[k]) by {
        if cands[k] == renderer {
            assert(chain[0] == cands[k]);
        } else {
            let f = cands.filter(pred);
            let j = choose|j: int| 0 <= j < f.len() && f[j] == cands[k];
            assert(chain[j + 1] == cands[k]);
        }
    }
}

} // verus!
