# Live Wallpaper

A video live wallpaper for the Windows desktop: libmpv plays a video in windows
placed behind the desktop icons, a tray icon controls it, and playback pauses
while the desktop is hidden.

- `src/` is the verified library (Verus): configuration and its defaults, the
  playback session's rules (renderer fallback, smart pause and blur, stuck
  playback and error reporting, tray tip), the tray menu model and what each
  choice does to the settings, the mpv options, filter chains and status line of a player,
  desktop geometry, monitor and host-window selection, the Windows path rules
  for joining a directory and naming a file (verbatim paths included), the autostart registry value, and
  UTF-16 and decimal text encodings.
- `app/` is the Windows program around it: Win32 windows, tray and registry
  calls, the libmpv bindings, the JSON files and the log.
- `tests/` exercises the library on concrete values.
