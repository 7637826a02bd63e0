use live_wallpaper::autostart::{autostart_state, run_value_bytes, stored_units, RunValue};

#[test]
fn run_value_is_utf16le_with_nul() {
    assert_eq!(run_value_bytes("C:\\a.exe"), vec![b'C', 0, b':', 0, b'\\', 0, b'a', 0, b'.', 0, b'e', 0, b'x', 0, b'e', 0, 0, 0]);
}

#[test]
fn written_value_reads_back_as_enabled() {
    let exe = "C:\\Program Files\\Live Wallpaper\\live-wallpaper.exe";
    let bytes = run_value_bytes(exe);
    assert_eq!(autostart_state(RunValue::Data(bytes), exe), Some(true));
}

#[test]
fn value_for_other_exe_reads_as_disabled() {
    let bytes = run_value_bytes("C:\\old\\live-wallpaper.exe");
    assert_eq!(autostart_state(RunValue::Data(bytes), "C:\\new\\live-wallpaper.exe"), Some(false));
}

#[test]
fn stored_units_stop_at_nul() {
    let bytes = vec![b'h', 0, b'i', 0, 0, 0, b'x', 0];
    assert_eq!(stored_units(&bytes), vec![b'h' as u16, b'i' as u16]);
}

#[test]
fn stored_units_without_nul_keep_everything() {
    let bytes = vec![0x34, 0x12, 0x78, 0x56];
    assert_eq!(stored_units(&bytes), vec![0x1234, 0x5678]);
}

#[test]
fn registry_outcomes() {
    assert_eq!(autostart_state(RunValue::KeyUnavailable, "x"), None);
    assert_eq!(autostart_state(RunValue::Missing, "x"), None);
    assert_eq!(autostart_state(RunValue::QueryFailed, "x"), Some(false));
    assert_eq!(autostart_state(RunValue::Empty, ""), Some(false));
    assert_eq!(autostart_state(RunValue::ReadFailed, "x"), Some(false));
}
