use vstd::prelude::*;
use crate::text::same_text;

verus! {

/// How far, in pixels, a window or a click may fall short of an edge and still count.
pub const EDGE_TOLERANCE: i32 = 8;

/// A screen rectangle given by its edges.
#[derive(PartialEq, Eq, Structural, Clone, Copy, Debug)]
pub struct Rect {
    pub left: i32,
    pub top: i32,
    pub right: i32,
    pub bottom: i32,
}

/// A monitor: its area (top-left corner and size) and whether the system names it
/// the primary monitor.
#[derive(Clone, Copy, Debug)]
pub struct Monitor {
    pub x: i32,
    pub y: i32,
    pub w: i32,
    pub h: i32,
    pub primary: bool,
}

/// The width and height of a rectangle fit in an `i32`.
pub open spec fn rect_size_fits(r: Rect) -> bool {
    &&& i32::MIN <= r.right - r.left <= i32::MAX
    &&& i32::MIN <= r.bottom - r.top <= i32::MAX
}

/// Moving each edge of a rectangle outwards by the tolerance stays within `i32`.
pub open spec fn rect_widens(r: Rect) -> bool {
    &&& r.left - EDGE_TOLERANCE >= i32::MIN
    &&& r.top - EDGE_TOLERANCE >= i32::MIN
    &&& r.right + EDGE_TOLERANCE <= i32::MAX
    &&& r.bottom + EDGE_TOLERANCE <= i32::MAX
}

/// Moving each edge of a rectangle inwards by the tolerance stays within `i32`.
pub open spec fn rect_narrows(r: Rect) -> bool {
    &&& r.left + EDGE_TOLERANCE <= i32::MAX
    &&& r.top + EDGE_TOLERANCE <= i32::MAX
    &&& r.right - EDGE_TOLERANCE >= i32::MIN
    &&& r.bottom - EDGE_TOLERANCE >= i32::MIN
}

/// The monitor that a monitor rectangle describes, with its primary flag.
pub fn monitor_from_rect(r: Rect, primary: bool) -> (m: Monitor)
    requires
        rect_size_fits(r),
    ensures
        m.x == r.left,
        m.y == r.top,
        m.w == r.right - r.left,
        m.h == r.bottom - r.top,
        m.primary == primary,
{
    Monitor { x: r.left, y: r.top, w: r.right - r.left, h: r.bottom - r.top, primary }
}

/// The window classes of the desktop itself, the taskbars and this program's own
/// windows, which never count as covering the desktop.
pub open spec fn is_background_class_spec(class: Seq<char>) -> bool {
    ||| class == "Progman"@
    ||| class == "WorkerW"@
    ||| class == "Shell_TrayWnd"@
    ||| class == "Shell_SecondaryTrayWnd"@
    ||| class == "LiveWallpaperTray"@
    ||| class == "LiveWallpaperSurface"@
}

/// Whether a window class (where it could be read) belongs to the desktop background.
pub fn is_background_class(class: Option<&str>) -> (r: bool)
    ensures
        r == (class matches Some(c) && is_background_class_spec(c@)),
{
    match class {
        Some(c) => same_text(c, "Progman") || same_text(c, "WorkerW") || same_text(c, "Shell_TrayWnd")
            || same_text(c, "Shell_SecondaryTrayWnd") || same_text(c, "LiveWallpaperTray")
            || same_text(c, "LiveWallpaperSurface"),
        None => false,
    }
}

/// The centre of a window, or nothing for a window without area.
pub fn window_center(r: Rect) -> (c: Option<(i32, i32)>)
    requires
        rect_size_fits(r),
    ensures
        (r.right - r.left <= 0 || r.bottom - r.top <= 0) ==> c is None,
        (r.right - r.left > 0 && r.bottom - r.top > 0) ==> c == Some((
            (r.left + (r.right - r.left) / 2) as i32,
            (r.top + (r.bottom - r.top) / 2) as i32,
        )),
{
    let w = r.right - r.left;
    let h = r.bottom - r.top;
    if w <= 0 || h <= 0 {
        None
    } else {
        Some((r.left + w / 2, r.top + h / 2))
    }
}

/// A window covers its monitor when each of its edges reaches the monitor's edge, or
/// beyond, to within the tolerance.
pub open spec fn covers_monitor_spec(win: Rect, mon: Rect) -> bool {
    &&& win.left <= mon.left + EDGE_TOLERANCE
    &&& win.top <= mon.top + EDGE_TOLERANCE
    &&& win.right >= mon.right - EDGE_TOLERANCE
    &&& win.bottom >= mon.bottom - EDGE_TOLERANCE
}

/// Whether a window covers the monitor it sits on.
pub fn covers_monitor(win: Rect, mon: Rect) -> (r: bool)
    requires
        rect_narrows(mon),
    ensures
        r == covers_monitor_spec(win, mon),
{
    win.left <= mon.left + EDGE_TOLERANCE && win.top <= mon.top + EDGE_TOLERANCE
        && win.right >= mon.right - EDGE_TOLERANCE && win.bottom >= mon.bottom - EDGE_TOLERANCE
}

/// Whether a point lies on a rectangle or within the tolerance of it.
pub fn point_near_rect(x: i32, y: i32, r: Rect) -> (near: bool)
    requires
        rect_widens(r),
    ensures
        near == (r.left - EDGE_TOLERANCE <= x <= r.right + EDGE_TOLERANCE
            && r.top - EDGE_TOLERANCE <= y <= r.bottom + EDGE_TOLERANCE),
{
    x >= r.left - EDGE_TOLERANCE && x <= r.right + EDGE_TOLERANCE && y >= r.top - EDGE_TOLERANCE
        && y <= r.bottom + EDGE_TOLERANCE
}

/// What the desktop check needs to know of a top-level window.
#[derive(PartialEq, Eq, Structural, Clone, Copy, Debug)]
pub struct TopWindow {
    /// The window belongs to the desktop background (see `is_background_class`).
    pub background: bool,
    pub visible: bool,
    /// The window is maximized.
    pub zoomed: bool,
    /// The window covers its whole monitor.
    pub fullscreen: bool,
}

/// The desktop is covered when the foreground window is a fullscreen window that is
/// not part of the background, or when some visible maximized window outside the
/// background exists.
pub open spec fn desktop_covered_spec(foreground: Option<TopWindow>, windows: Seq<TopWindow>) -> bool {
    ||| (foreground matches Some(f) && !f.background && f.fullscreen)
    ||| exists|i: int| 0 <= i < windows.len() && !windows[i].background && windows[i].visible && #[trigger] windows[i].zoomed
}

/// Whether the desktop is hidden, from the foreground window and the top-level windows.
pub fn desktop_covered(foreground: Option<TopWindow>, windows: &Vec<TopWindow>) -> (r: bool)
    ensures
        r == desktop_covered_spec(foreground, windows@),
{
    if let Some(f) = foreground {
        if !f.background && f.fullscreen {
            return true;
        }
    }
    let n = windows.len();
    let mut i: usize = 0;
    while i < n
        invariant
            i <= n,
            n == windows@.len(),
            !(foreground matches Some(f) && !f.background && f.fullscreen),
            forall|k: int| 0 <= k < i ==> !(!windows@[k].background && windows@[k].visible && #[trigger] windows@[k].zoomed),
        decreases n - i,
    {
        let w = windows[i];
        if !w.background && w.visible && w.zoomed {
            return true;
        }
        i += 1;
    }
    false
}

/// What the host search needs to know of a child window of the desktop's program
/// manager.
pub struct ChildWindow {
    /// The window's class, where it could be read.
    pub class: Option<String>,
    pub visible: bool,
    /// The window holds the desktop icons.
    pub has_icons: bool,
}

/// A child that can host the wallpaper: a visible worker window without the icons.
pub open spec fn is_wallpaper_worker(c: ChildWindow) -> bool {
    &&& c.class matches Some(n) && n@ == "WorkerW"@
    &&& c.visible
    &&& !c.has_icons
}

/// The first child that can host the wallpaper.
pub fn first_wallpaper_worker(children: &Vec<ChildWindow>) -> (r: Option<usize>)
    ensures
        r matches Some(i) ==> i < children@.len() && is_wallpaper_worker(children@[i as int])
            && forall|k: int| 0 <= k < i ==> !is_wallpaper_worker(#[trigger] children@[k]),
        r is None ==> forall|k: int| 0 <= k < children@.len() ==> !is_wallpaper_worker(#[trigger] children@[k]),
{
    let n = children.len();
    let mut i: usize = 0;
    while i < n
        invariant
            i <= n,
            n == children@.len(),
            forall|k: int| 0 <= k < i ==> !is_wallpaper_worker(#[trigger] children@[k]),
        decreases n - i,
    {
        let c = &children[i];
        let is_worker = match &c.class {
            Some(name) => same_text(name.as_str(), "WorkerW"),
            None => false,
        };
        if is_worker && c.visible && !c.has_icons {
            return Some(i);
        }
        i += 1;
    }
    None
}

/// The last top-level window that holds the desktop icons.
pub fn last_icon_window(has_icons: &Vec<bool>) -> (r: Option<usize>)
    ensures
        r matches Some(i) ==> i < has_icons@.len() && has_icons@[i as int]
            && forall|k: int| i < k < has_icons@.len() ==> !has_icons@[k],
        r is None ==> forall|k: int| 0 <= k < has_icons@.len() ==> !has_icons@[k],
{
    let n = has_icons.len();
    let mut found: Option<usize> = None;
    let mut i: usize = 0;
    while i < n
        invariant
            i <= n,
            n == has_icons@.len(),
            found matches Some(j) ==> j < i && has_icons@[j as int]
                && forall|k: int| j < k < i ==> !has_icons@[k],
            found is None ==> forall|k: int| 0 <= k < i ==> !has_icons@[k],
        decreases n - i,
    {
        if has_icons[i] {
            found = Some(i);
        }
        i += 1;
    }
    found
}

/// The window to host the wallpaper: the worker window that follows the icon
/// window where there is one, else a wallpaper worker among the program manager's
/// children, else the program manager itself.
pub fn choose_host<H>(after_icons: Option<H>, worker_child: Option<H>, progman: H) -> (r: H)
    ensures
        after_icons matches Some(h) ==> r == h,
        after_icons is None ==> (worker_child matches Some(h) ==> r == h),
        after_icons is None && worker_child is None ==> r == progman,
{
    match after_icons {
        Some(h) => h,
        None => match worker_child {
            Some(h) => h,
            None => progman,
        },
    }
}

} // verus!
