use baz_launcher::folders::{
    find_entry, fs_pref_path, game_dir, hyphenated, installed_version, native_artifact,
    read_fs_pref, retired_slugs, support_env, support_path, sweep_retired, toggled_fullscreen,
    write_fs_pref,
};
use baz_launcher::platform::Platform;

fn entries(names: &[&str]) -> Vec<Option<String>> {
    names.iter().map(|n| Some(n.to_string())).collect()
}

#[test]
fn a_game_lives_under_its_slug() {
    assert_eq!(game_dir("ranger"), vec!["games", "ranger"]);
}

#[test]
fn only_retired_folders_are_swept() {
    assert_eq!(retired_slugs(), vec!["egregore"]);
    assert_eq!(sweep_retired(), vec!["egregore"]);
}

#[test]
fn the_preference_is_read_back() {
    assert_eq!(fs_pref_path(), "fullscreen.pref");
    assert_eq!(write_fs_pref(true), "1");
    assert_eq!(write_fs_pref(false), "0");
    assert!(read_fs_pref(Some(write_fs_pref(true))));
    assert!(!read_fs_pref(Some(write_fs_pref(false))));
    assert!(read_fs_pref(Some(" 1\r\n")));
    assert!(!read_fs_pref(Some("11")));
    assert!(!read_fs_pref(Some("")));
    assert!(!read_fs_pref(None));
}

#[test]
fn the_shortcut_turns_the_window() {
    assert!(!toggled_fullscreen(Some(true)));
    assert!(toggled_fullscreen(Some(false)));
    assert!(toggled_fullscreen(None));
}

#[test]
fn where_a_game_keeps_its_files() {
    assert_eq!(support_env(Platform::Mac), "HOME");
    assert_eq!(support_env(Platform::Windows), "APPDATA");
    assert_eq!(support_env(Platform::Other), "HOME");
    assert_eq!(
        support_path(Platform::Mac, "Divus Factus", "models", Some("/Users/b")).unwrap(),
        vec!["/Users/b", "Library/Application Support", "Divus Factus", "models"]
    );
    assert_eq!(
        support_path(Platform::Windows, "Divus Factus", "models", Some("C:\\b")).unwrap(),
        vec!["C:\\b", "Divus Factus", "models"]
    );
    assert_eq!(
        support_path(Platform::Other, "Divus Factus", "models", Some("/home/b")).unwrap(),
        vec!["/home/b", ".local/share", "divus-factus", "models"]
    );
    assert!(support_path(Platform::Other, "Divus Factus", "models", None).is_none());
}

#[test]
fn support_directories_are_lower_case_without_spaces() {
    let parts = support_path(Platform::Other, "\u{c9}t\u{e9} \u{d6}de", "x", Some("h")).unwrap();
    assert_eq!(parts[2], "\u{e9}t\u{e9}-\u{f6}de");
    assert_eq!(hyphenated("a b  c"), "a-b--c");
}

#[test]
fn the_first_entry_of_an_extension() {
    let list = vec![
        Some("readme.txt".to_string()),
        None,
        Some("app".to_string()),
        Some("Ranger.app".to_string()),
        Some("Other.app".to_string()),
    ];
    assert_eq!(find_entry(&list, "app"), Some(3));
    assert_eq!(find_entry(&list, "exe"), None);
    assert_eq!(find_entry(&Vec::new(), "app"), None);
    assert_eq!(find_entry(&entries(&[".exe"]), "exe"), Some(0));
}

#[test]
fn a_native_artifact_goes_by_the_platform() {
    let both = entries(&["Ranger.app", "ranger.exe"]);
    assert!(native_artifact(Platform::Mac, &both));
    assert!(native_artifact(Platform::Windows, &both));
    assert!(!native_artifact(Platform::Other, &both));
    assert!(!native_artifact(Platform::Mac, &entries(&["ranger.exe"])));
}

#[test]
fn a_stamp_alone_is_no_install() {
    let none: Vec<Option<String>> = Vec::new();
    assert_eq!(installed_version("wingman", Platform::Mac, false, &none, Some("1.0")), None);
    // What is left of a web bundle does not pass for a native build.
    let web = entries(&["index.html", "js", "version.txt"]);
    assert_eq!(installed_version("wriftheart", Platform::Mac, true, &web, Some("1.0")), None);
}

#[test]
fn the_stamped_version_is_installed() {
    let none: Vec<Option<String>> = Vec::new();
    assert_eq!(
        installed_version("wingman", Platform::Other, true, &none, Some(" 1.2.3\n")),
        Some("1.2.3".to_string())
    );
    assert_eq!(
        installed_version("ranger", Platform::Windows, false, &entries(&["r.exe"]), Some("0.9")),
        Some("0.9".to_string())
    );
    assert_eq!(installed_version("wingman", Platform::Other, true, &none, Some(" \t\n")), None);
    assert_eq!(installed_version("wingman", Platform::Other, true, &none, None), None);
    assert_eq!(installed_version("egregore", Platform::Other, true, &none, Some("1")), None);
}
