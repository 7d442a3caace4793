use baz_launcher::catalog::game_by_slug;
use baz_launcher::http::HttpStatus;
use baz_launcher::lookup::{check_latest, latest_release, Lookup, LookupAction, LookupReply};
use baz_launcher::memory::{ReleaseMemory, REMEMBER_FOR};
use baz_launcher::platform::Platform;
use baz_launcher::release::RATE_LIMITED;

const BODY: &[u8] = br#"[{"tag_name":"v2.0","body":"New","assets":
    [{"name":"wingman-game.zip","browser_download_url":"https://x/wingman-game.zip"}]}]"#;

fn status(code: u16) -> HttpStatus {
    HttpStatus::from_u16(code).unwrap()
}

fn start(slug: &str, memory: &ReleaseMemory, now: u64) -> Lookup {
    match check_latest(slug, Platform::Mac, memory, now) {
        Ok(lookup) => lookup,
        Err(e) => panic!("{}", e),
    }
}

fn told(lookup: &Lookup) -> Result<(String, String, String), String> {
    match lookup.latest() {
        Some(Ok(latest)) => Ok((latest.version, latest.url, latest.notes)),
        Some(Err(e)) => Err(e),
        None => panic!("there is no answer yet"),
    }
}

#[test]
fn a_release_is_asked_for_and_told() {
    let mut memory = ReleaseMemory::new();
    let mut lookup = start("wingman", &memory, 5);
    match lookup.action() {
        LookupAction::Get(url) => assert_eq!(
            url,
            "https://api.github.com/repos/Baz-Studios-LLC/Wingman/releases?per_page=20"
        ),
        _ => panic!("it does not ask"),
    }
    assert!(lookup.latest().is_none());
    lookup.next(LookupReply::Status(status(200), None), &mut memory, 6);
    assert!(matches!(lookup.action(), LookupAction::ReadBody));
    lookup.next(LookupReply::Body(BODY.to_vec()), &mut memory, 7);
    assert!(matches!(lookup.action(), LookupAction::Nothing));
    assert_eq!(
        told(&lookup),
        Ok(("2.0".to_string(), "https://x/wingman-game.zip".to_string(), "New".to_string()))
    );
}

#[test]
fn an_answer_is_not_asked_for_again() {
    let mut memory = ReleaseMemory::new();
    let mut lookup = start("wingman", &memory, 0);
    lookup.next(LookupReply::Status(status(200), None), &mut memory, 10);
    lookup.next(LookupReply::Body(BODY.to_vec()), &mut memory, 10);
    let again = start("wingman", &memory, 10 + REMEMBER_FOR - 1);
    assert!(matches!(again.action(), LookupAction::Nothing));
    assert_eq!(told(&again), told(&lookup));
    let later = start("wingman", &memory, 10 + REMEMBER_FOR);
    assert!(matches!(later.action(), LookupAction::Get(_)));
    let other = start("crashout", &memory, 11);
    assert!(matches!(other.action(), LookupAction::Get(_)));
}

#[test]
fn failures_are_not_remembered() {
    let mut memory = ReleaseMemory::new();
    let replies: Vec<(LookupReply, &str)> = vec![
        (LookupReply::Failed("offline".to_string()), "offline"),
        (LookupReply::Status(status(403), Some("0".to_string())), RATE_LIMITED),
        (LookupReply::Status(status(500), None), "GitHub returned 500 Internal Server Error"),
    ];
    for (reply, expected) in replies {
        let mut lookup = start("wingman", &memory, 0);
        lookup.next(reply, &mut memory, 1);
        assert_eq!(told(&lookup), Err(expected.to_string()));
        assert!(memory.remembered_release("Baz-Studios-LLC/Wingman", 1).is_none());
    }
    let bodies: Vec<(&[u8], &str)> = vec![
        (b"[]", "no published game release found"),
        (b"{}", "unexpected GitHub response"),
        (b"?", "error decoding response body"),
    ];
    for (body, expected) in bodies {
        let mut lookup = start("wingman", &memory, 0);
        lookup.next(LookupReply::Status(status(200), None), &mut memory, 1);
        lookup.next(LookupReply::Body(body.to_vec()), &mut memory, 1);
        assert_eq!(told(&lookup), Err(expected.to_string()));
        assert!(memory.remembered_release("Baz-Studios-LLC/Wingman", 1).is_none());
    }
    let mut cut = start("wingman", &memory, 0);
    cut.next(LookupReply::Status(status(200), None), &mut memory, 1);
    cut.next(LookupReply::Failed("cut".to_string()), &mut memory, 1);
    assert_eq!(told(&cut), Err("cut".to_string()));
}

#[test]
fn replies_out_of_turn_change_nothing() {
    let mut memory = ReleaseMemory::new();
    let mut lookup = start("wingman", &memory, 0);
    lookup.next(LookupReply::Body(BODY.to_vec()), &mut memory, 0);
    assert!(matches!(lookup.action(), LookupAction::Get(_)));
    lookup.next(LookupReply::Status(status(200), None), &mut memory, 0);
    lookup.next(LookupReply::Status(status(404), None), &mut memory, 0);
    assert!(matches!(lookup.action(), LookupAction::ReadBody));
    assert!(memory.remembered_release("Baz-Studios-LLC/Wingman", 0).is_none());
}

#[test]
fn unknown_games_are_not_looked_up() {
    let memory = ReleaseMemory::new();
    match check_latest("nothing", Platform::Mac, &memory, 0) {
        Ok(_) => panic!("it was looked up"),
        Err(e) => assert_eq!(e, "unknown game"),
    }
}

#[test]
fn the_bundle_goes_by_the_platform() {
    let body = br#"[{"tag_name":"v1","assets":[
        {"name":"r-1-windows-x86_64.zip","browser_download_url":"win"}]},
        {"tag_name":"v0","assets":[
        {"name":"r-0-macos-aarch64.app.tar.gz","browser_download_url":"mac"}]}]"#;
    let game = game_by_slug("ranger").unwrap();
    for (platform, expected) in
        vec![(Platform::Windows, "win"), (Platform::Mac, "mac"), (Platform::Other, "mac")]
    {
        let mut memory = ReleaseMemory::new();
        let mut lookup = latest_release(&game, platform, &memory, 0);
        lookup.next(LookupReply::Status(status(200), None), &mut memory, 0);
        lookup.next(LookupReply::Body(body.to_vec()), &mut memory, 0);
        assert_eq!(told(&lookup).unwrap().1, expected);
    }
}
