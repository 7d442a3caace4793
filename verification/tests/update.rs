use baz_launcher::platform::Platform;
use baz_launcher::update::{fs_shortcuts, self_update_install, Hotkey, SelfUpdate, UpdateReply};

#[test]
fn a_newer_launcher_is_installed_and_started() {
    let update = self_update_install();
    assert!(matches!(update, SelfUpdate::Check));
    let update = update.next(UpdateReply::Found(true));
    assert!(matches!(update, SelfUpdate::Install));
    let update = update.next(UpdateReply::Done);
    assert!(matches!(update, SelfUpdate::Restart));
}

#[test]
fn without_a_newer_launcher_nothing_happens() {
    let update = self_update_install().next(UpdateReply::Found(false));
    assert!(matches!(update, SelfUpdate::Done(Ok(()))));
}

#[test]
fn failures_of_an_update_are_told() {
    match self_update_install().next(UpdateReply::Failed("no answer".to_string())) {
        SelfUpdate::Done(Err(e)) => assert_eq!(e, "no answer"),
        _ => panic!("the failure was lost"),
    }
    let installing = self_update_install().next(UpdateReply::Found(true));
    match installing.next(UpdateReply::Failed("bad signature".to_string())) {
        SelfUpdate::Done(Err(e)) => assert_eq!(e, "bad signature"),
        _ => panic!("the failure was lost"),
    }
}

#[test]
fn an_update_starts_again_only_once_it_is_in_place() {
    let update = self_update_install().next(UpdateReply::Done);
    assert!(matches!(update, SelfUpdate::Check));
}

#[test]
fn the_keys_of_each_platform() {
    assert_eq!(fs_shortcuts(Platform::Mac), vec![Hotkey::F11, Hotkey::CommandControlF]);
    assert_eq!(fs_shortcuts(Platform::Windows), vec![Hotkey::F11]);
    assert_eq!(fs_shortcuts(Platform::Other), vec![Hotkey::F11]);
}
