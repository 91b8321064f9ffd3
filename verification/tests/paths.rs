use otty::paths::{config_dir_from, expand_tilde, home_dir_from, settings_path, Platform};

#[test]
fn given_home_when_config_dir_then_dot_config_otty() {
    let dir = config_dir_from(Platform::Unix, Some("/home/u"), None, "/tmp");
    assert_eq!(
        std::path::PathBuf::from(dir),
        std::path::PathBuf::from("/home/u/.config/otty")
    );
}

#[test]
fn given_appdata_when_config_dir_then_appdata_otty() {
    let dir = config_dir_from(
        Platform::Windows,
        None,
        Some("C:\\Users\\u\\AppData\\Roaming"),
        "/tmp",
    );
    assert_eq!(dir, "C:\\Users\\u\\AppData\\Roaming\\otty");
}

#[test]
fn given_nothing_when_config_dir_then_temp_otty() {
    let dir = config_dir_from(Platform::Unix, None, None, "/fallback");
    assert_eq!(
        std::path::PathBuf::from(dir),
        std::path::PathBuf::from("/fallback").join("otty")
    );
    let dir = config_dir_from(Platform::Windows, Some("/home/u"), None, "C:\\Temp\\");
    assert_eq!(dir, "C:\\Temp\\otty");
}

#[test]
fn given_home_when_home_dir_then_some() {
    assert_eq!(
        home_dir_from(Platform::Unix, Some("/home/u"), None),
        Some(String::from("/home/u"))
    );
}

#[test]
fn given_userprofile_when_home_dir_then_some() {
    assert_eq!(
        home_dir_from(Platform::Windows, None, Some("C:\\Users\\u")),
        Some(String::from("C:\\Users\\u"))
    );
}

#[test]
fn given_nothing_when_home_dir_then_none() {
    assert_eq!(home_dir_from(Platform::Unix, None, None), None);
    assert_eq!(home_dir_from(Platform::Windows, None, None), None);
}

#[test]
fn home_is_the_fallback_on_windows_only() {
    assert_eq!(
        home_dir_from(Platform::Windows, Some("/c/u"), None),
        Some(String::from("/c/u"))
    );
    assert_eq!(home_dir_from(Platform::Unix, None, Some("C:\\Users\\u")), None);
}

#[test]
fn tilde_is_expanded_at_the_start_only() {
    assert_eq!(expand_tilde("~", Some("/home/u")), "/home/u");
    assert_eq!(expand_tilde("~/x/~", Some("/home/u")), "/home/u/x/~");
    assert_eq!(expand_tilde("~x", Some("/home/u")), "~x");
    assert_eq!(expand_tilde("/a/~", Some("/home/u")), "/a/~");
    assert_eq!(expand_tilde("", Some("/home/u")), "");
    assert_eq!(expand_tilde("~/x", None), "~/x");
}

#[test]
fn settings_are_in_the_configuration_directory() {
    assert_eq!(settings_path(Platform::Unix, "/c/otty"), "/c/otty/settings.json");
}
