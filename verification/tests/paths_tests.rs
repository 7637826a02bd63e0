use live_wallpaper::paths::{file_name, join_component};

fn name(p: &str) -> Option<String> {
    file_name(p)
}

#[test]
fn file_name_of_plain_paths() {
    assert_eq!(name("C:\\clips\\sea.mp4").as_deref(), Some("sea.mp4"));
    assert_eq!(name("/videos/sea.mp4").as_deref(), Some("sea.mp4"));
    assert_eq!(name("tmp/foo.txt").as_deref(), Some("foo.txt"));
    assert_eq!(name("sea.mp4").as_deref(), Some("sea.mp4"));
    assert_eq!(name("C:a").as_deref(), Some("a"));
}

#[test]
fn file_name_passes_over_trailing_separators_and_dots() {
    assert_eq!(name("/usr/bin/").as_deref(), Some("bin"));
    assert_eq!(name("foo.txt/.").as_deref(), Some("foo.txt"));
    assert_eq!(name("foo.txt/.//").as_deref(), Some("foo.txt"));
    assert_eq!(name("D:\\clips\\\\").as_deref(), Some("clips"));
}

#[test]
fn file_name_none_cases() {
    assert_eq!(name("foo.txt/.."), None);
    assert_eq!(name("a\\.."), None);
    assert_eq!(name("/"), None);
    assert_eq!(name(""), None);
    assert_eq!(name("C:"), None);
    assert_eq!(name("C:\\"), None);
    assert_eq!(name("."), None);
}

#[test]
fn file_name_after_network_and_device_prefixes() {
    assert_eq!(name("\\\\server\\share"), None);
    assert_eq!(name("\\\\server\\share\\"), None);
    assert_eq!(name("\\\\server\\share\\clip.mp4").as_deref(), Some("clip.mp4"));
    assert_eq!(name("//server/share/clip.mp4").as_deref(), Some("clip.mp4"));
    assert_eq!(name("\\\\server").as_deref(), Some("server"));
    assert_eq!(name("\\\\.\\pipe"), None);
    assert_eq!(name("\\\\.\\pipe\\x").as_deref(), Some("x"));
}

#[test]
fn file_name_of_verbatim_paths() {
    assert_eq!(name("\\\\?\\C:\\a\\b.mp4").as_deref(), Some("b.mp4"));
    assert_eq!(name("\\\\?\\C:\\a\\\\").as_deref(), Some("a"));
    assert_eq!(name("\\\\?\\C:\\a/b").as_deref(), Some("a/b"));
    assert_eq!(name("\\\\?\\C:/a").as_deref(), Some("a"));
    assert_eq!(name("\\\\?\\C:\\a\\."), None);
    assert_eq!(name("\\\\?\\C:\\a\\.."), None);
    assert_eq!(name("\\\\?\\C:"), None);
    assert_eq!(name("\\\\?\\C:\\"), None);
    assert_eq!(name("\\\\?\\UNC\\server\\share"), None);
    assert_eq!(name("\\\\?\\UNC\\server\\share\\x.mp4").as_deref(), Some("x.mp4"));
    assert_eq!(name("\\\\?\\Volume{1}\\x").as_deref(), Some("x"));
    assert_eq!(name("//?/C:/a").as_deref(), Some("a"));
}

#[test]
fn join_on_verbatim_bases() {
    assert_eq!(join_component("\\\\?\\C:\\a\\\\b", "config.json"), "\\\\?\\C:\\a\\b\\config.json");
    assert_eq!(join_component("\\\\?\\C:", "x"), "\\\\?\\C:\\x");
    assert_eq!(join_component("\\\\?\\C:\\", "x"), "\\\\?\\C:\\x");
    assert_eq!(join_component("\\\\?\\C:/a", "x"), "\\\\?\\C:\\a\\x");
    assert_eq!(join_component("\\\\?\\C:\\a\\.\\b\\", "x"), "\\\\?\\C:\\a\\.\\b\\x");
    assert_eq!(join_component("\\\\?\\UNC\\srv\\share", "x"), "\\\\?\\UNC\\srv\\share\\x");
}

#[test]
fn join_rule() {
    assert_eq!(join_component("C:\\data", "x.json"), "C:\\data\\x.json");
    assert_eq!(join_component("C:\\data\\", "x.json"), "C:\\data\\x.json");
    assert_eq!(join_component("c:", "x.json"), "c:x.json");
    assert_eq!(join_component("", "x.json"), "x.json");
    assert_eq!(join_component("/srv", "x.json"), "/srv\\x.json");
}

#[test]
fn file_name_of_a_joined_path_is_the_appended_name() {
    for base in ["C:\\Users\\ann", "C:", "", "dir/", "\\\\server\\share", "/srv", "\\\\?\\C:\\v\\\\"] {
        let joined = join_component(base, "clip.mp4");
        assert_eq!(file_name(&joined).as_deref(), Some("clip.mp4"), "{base}");
    }
}
