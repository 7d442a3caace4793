use baz_launcher::http::HttpStatus;
use baz_launcher::install::{install, Install, InstallAction, InstallReply};
use baz_launcher::platform::Platform;

fn status(code: u16) -> InstallReply {
    InstallReply::Status(HttpStatus::from_u16(code).unwrap())
}

fn shown(install: &Install) -> String {
    match install.action() {
        InstallAction::FetchPayload(slug) => format!("payload {}", slug),
        InstallAction::Download(url) => format!("download {}", url),
        InstallAction::ReadBody => "read".to_string(),
        InstallAction::ProbeDir(p) => format!("probe {}", p.join("|")),
        InstallAction::RemoveDir(p) => format!("rmdir {}", p.join("|")),
        InstallAction::CreateDir(p) => format!("mkdir {}", p.join("|")),
        InstallAction::WriteArchive(p) => format!("write {}", p.join("|")),
        InstallAction::RunTar(p, q) => format!("tar {} {}", p.join("|"), q.join("|")),
        InstallAction::RemoveArchive(p) => format!("remove {}", p.join("|")),
        InstallAction::UnpackZip(p) => format!("unzip {}", p.join("|")),
        InstallAction::Unquarantine(p) => format!("xattr {}", p.join("|")),
        InstallAction::Stamp(p, v) => format!("stamp {} {}", p.join("|"), v),
        InstallAction::Nothing => "nothing".to_string(),
    }
}

/// Everything that an install does where each step goes well.
fn smooth(slug: &str, url: &str, platform: Platform, stale: bool) -> (Vec<String>, bool) {
    let mut trail: Vec<String> = Vec::new();
    let mut run = install(slug, url, "1.2", platform);
    while run.outcome().is_none() {
        let reply = match run.action() {
            InstallAction::Download(_) => status(200),
            InstallAction::ProbeDir(_) => InstallReply::Exists(stale),
            InstallAction::RunTar(_, _) => InstallReply::Exit(true),
            _ => InstallReply::Done,
        };
        trail.push(shown(&run));
        run = run.next(reply);
    }
    (trail, run.outcome() == Some(Ok(())))
}

/// An install without a payload that is about to make its folder.
fn making(url: &str, platform: Platform) -> Install {
    install("wingman", url, "1.2", platform)
        .next(status(200))
        .next(InstallReply::Done)
        .next(InstallReply::Exists(false))
}

fn failed(run: Install) -> Option<Result<(), String>> {
    run.next(InstallReply::Failed("broken".to_string())).outcome()
}

#[test]
fn a_web_bundle_is_unzipped_and_stamped() {
    let (trail, ok) = smooth("wingman", "https://x/wingman-game.zip", Platform::Other, false);
    assert!(ok);
    assert_eq!(
        trail,
        vec![
            "download https://x/wingman-game.zip",
            "read",
            "probe games|wingman",
            "mkdir games|wingman",
            "unzip games|wingman",
            "stamp games|wingman|version.txt 1.2",
        ]
    );
}

#[test]
fn a_mac_build_is_untarred_over_what_was_there() {
    let (trail, ok) = smooth("divus-factus", "https://x/d.app.tar.gz", Platform::Mac, true);
    assert!(ok);
    assert_eq!(
        trail,
        vec![
            "payload divus-factus",
            "download https://x/d.app.tar.gz",
            "read",
            "probe games|divus-factus",
            "rmdir games|divus-factus",
            "mkdir games|divus-factus",
            "write games|divus-factus|__download.tar.gz",
            "tar games|divus-factus|__download.tar.gz games|divus-factus",
            "remove games|divus-factus|__download.tar.gz",
            "xattr games|divus-factus",
            "stamp games|divus-factus|version.txt 1.2",
        ]
    );
}

#[test]
fn archives_are_told_apart_by_their_address() {
    assert!(shown(&making("a.tgz", Platform::Other).next(InstallReply::Done)).starts_with("write"));
    assert!(shown(&making("a.tar.gz", Platform::Other).next(InstallReply::Done))
        .starts_with("write"));
    assert!(shown(&making("a.tar.gz?x", Platform::Other).next(InstallReply::Done))
        .starts_with("unzip"));
    assert!(shown(&making("a.tar", Platform::Other).next(InstallReply::Done)).starts_with("unzip"));
}

#[test]
fn a_payload_never_refuses_an_install() {
    let run = install("divus-factus", "u.zip", "1", Platform::Windows);
    assert_eq!(shown(&run), "payload divus-factus");
    let run = run.next(InstallReply::Failed("no payload".to_string()));
    assert_eq!(shown(&run), "download u.zip");
    assert_eq!(run.outcome(), None);
}

#[test]
fn a_refused_download_is_told() {
    let run = install("wingman", "u.zip", "1", Platform::Windows).next(status(404));
    assert_eq!(run.outcome(), Some(Err("download returned 404 Not Found".to_string())));
}

#[test]
fn an_archive_that_does_not_unpack_is_no_install() {
    let tar = making("a.tgz", Platform::Mac).next(InstallReply::Done).next(InstallReply::Done);
    let run = tar.next(InstallReply::Exit(false));
    assert_eq!(shown(&run), "remove games|wingman|__download.tar.gz");
    let run = run.next(InstallReply::Done);
    assert_eq!(run.outcome(), Some(Err("failed to unpack the game archive".to_string())));
}

#[test]
fn failed_steps_end_an_install() {
    let broken = Some(Err("broken".to_string()));
    let start = || install("wingman", "a.tgz", "1.2", Platform::Other);
    assert_eq!(failed(start()), broken);
    assert_eq!(failed(start().next(status(200))), broken);
    let probe = || start().next(status(200)).next(InstallReply::Done);
    assert_eq!(failed(probe().next(InstallReply::Exists(true))), broken);
    assert_eq!(failed(probe().next(InstallReply::Exists(false))), broken);
    let write = || making("a.tgz", Platform::Other).next(InstallReply::Done);
    assert_eq!(failed(write()), broken);
    assert_eq!(failed(write().next(InstallReply::Done)), broken);
    let unzip = || making("a.zip", Platform::Other).next(InstallReply::Done);
    assert_eq!(failed(unzip()), broken);
    assert_eq!(failed(unzip().next(InstallReply::Done)), broken);
}

#[test]
fn steps_that_may_fail() {
    let unpacked = making("a.tgz", Platform::Mac)
        .next(InstallReply::Done)
        .next(InstallReply::Done)
        .next(InstallReply::Exit(true));
    let run = unpacked.next(InstallReply::Failed("busy".to_string()));
    assert_eq!(shown(&run), "xattr games|wingman");
    let run = run.next(InstallReply::Failed("no xattr".to_string()));
    assert_eq!(shown(&run), "stamp games|wingman|version.txt 1.2");
}

#[test]
fn an_install_that_has_ended_stays_ended() {
    let run = install("wingman", "u.zip", "1", Platform::Windows).next(status(500));
    let outcome = run.outcome();
    assert_eq!(run.next(status(200)).next(InstallReply::Done).outcome(), outcome);
}

#[test]
fn unknown_slugs_are_installed_without_a_payload() {
    let run = install("nothing", "u.zip", "1", Platform::Windows);
    assert_eq!(shown(&run), "download u.zip");
}
