use baz_launcher::catalog::{catalog, Delivery};
use baz_launcher::platform::Platform;
use baz_launcher::play::{game_url, launch_native, play, Play, PlayAction, PlayReply, Ports};

fn shown(play: &Play) -> String {
    match play.action() {
        PlayAction::Locate => "locate".to_string(),
        PlayAction::List(p) => format!("list {}", p.join("|")),
        PlayAction::OpenBundle(i) => format!("open {}", i),
        PlayAction::RunProgram(i, p) => format!("run {} {}", i, p.join("|")),
        PlayAction::ProbeIndex(p) => format!("probe {}", p.join("|")),
        PlayAction::Claim(port) => format!("claim {}", port),
        PlayAction::Serve(p, port) => format!("serve {} {}", p.join("|"), port),
        PlayAction::Show(url, title) => format!("show {} {}", url, title),
        PlayAction::Recall => "recall".to_string(),
        PlayAction::Fullscreen => "fullscreen".to_string(),
        PlayAction::Nothing => "nothing".to_string(),
    }
}

fn entries(names: &[&str]) -> Vec<Option<String>> {
    names.iter().map(|n| Some(n.to_string())).collect()
}

fn failed(play: Play) -> Option<Result<(), String>> {
    play.next(PlayReply::Failed("broken".to_string())).outcome()
}

/// A web game that waits for the record of the served ports.
fn claiming() -> Play {
    play("crashout", Platform::Other).next(PlayReply::Done).next(PlayReply::Exists(true))
}

/// A record on which the port of that game is.
fn recorded() -> Ports {
    let mut ports = Ports::new();
    let game = claiming().next_holding(PlayReply::Done, &mut ports);
    assert_eq!(shown(&game), "serve games|crashout 47826");
    let game = game.next_holding(PlayReply::Done, &mut ports);
    assert_eq!(shown(&game), "show http://127.0.0.1:47826/ Crashout");
    ports
}

/// A web game that is shown.
fn showing() -> Play {
    claiming().next_holding(PlayReply::Done, &mut recorded())
}

#[test]
fn a_web_game_is_served_and_shown() {
    let mut ports = Ports::new();
    let game = play("crashout", Platform::Mac);
    assert_eq!(shown(&game), "locate");
    let game = game.next(PlayReply::Done);
    assert_eq!(shown(&game), "probe games|crashout|index.html");
    let game = game.next(PlayReply::Exists(true));
    assert_eq!(shown(&game), "claim 47826");
    let game = game.next_holding(PlayReply::Done, &mut ports);
    assert_eq!(shown(&game), "serve games|crashout 47826");
    assert!(!ports.is_bound(47826));
    let game = game.next_holding(PlayReply::Done, &mut ports);
    assert!(ports.is_bound(47826));
    assert_eq!(shown(&game), "show http://127.0.0.1:47826/ Crashout");
    let game = game.next(PlayReply::Done);
    assert_eq!(shown(&game), "recall");
    let game = game.next(PlayReply::Contents(Some("1".to_string())));
    assert_eq!(shown(&game), "fullscreen");
    assert_eq!(game.next(PlayReply::Done).outcome(), Some(Ok(())));
}

#[test]
fn a_port_is_served_once() {
    let mut ports = recorded();
    assert!(ports.is_bound(47826));
    assert!(!ports.is_bound(47824));
    let game = claiming().next_holding(PlayReply::Done, &mut ports);
    assert_eq!(shown(&game), "show http://127.0.0.1:47826/ Crashout");
    let other = play("wingman", Platform::Other)
        .next(PlayReply::Done)
        .next(PlayReply::Exists(true))
        .next_holding(PlayReply::Done, &mut ports);
    assert_eq!(shown(&other), "serve games|wingman 47824");
    other.next_holding(PlayReply::Done, &mut ports);
    assert!(ports.is_bound(47824) && ports.is_bound(47826));
}

#[test]
fn a_failed_serving_is_tried_again() {
    let mut ports = Ports::new();
    let game = claiming().next_holding(PlayReply::Done, &mut ports);
    let game = game.next_holding(PlayReply::Failed("in use".to_string()), &mut ports);
    assert_eq!(game.outcome(), Some(Err("in use".to_string())));
    assert!(!ports.is_bound(47826));
    let again = claiming().next_holding(PlayReply::Done, &mut ports);
    assert_eq!(shown(&again), "serve games|crashout 47826");
}

#[test]
fn the_record_is_waited_for() {
    let game = claiming().next(PlayReply::Done);
    assert_eq!(shown(&game), "claim 47826");
    let game = game.next_holding(PlayReply::Done, &mut Ports::new()).next(PlayReply::Done);
    assert_eq!(shown(&game), "serve games|crashout 47826");
}

#[test]
fn the_window_opens_the_way_it_was_left() {
    let recall = || showing().next(PlayReply::Done);
    assert_eq!(
        recall().next(PlayReply::Contents(Some("0".to_string()))).outcome(),
        Some(Ok(()))
    );
    assert_eq!(recall().next(PlayReply::Contents(None)).outcome(), Some(Ok(())));
    let full = recall().next(PlayReply::Contents(Some("1\n".to_string())));
    assert_eq!(shown(&full), "fullscreen");
    assert_eq!(failed(full), Some(Ok(())));
}

#[test]
fn a_native_game_is_run_on_its_own() {
    let game = play("ranger", Platform::Mac).next(PlayReply::Done);
    assert_eq!(shown(&game), "list games|ranger");
    let game = game.next(PlayReply::Entries(entries(&["version.txt", "Ranger.app"])));
    assert_eq!(shown(&game), "open 1");
    assert_eq!(game.next(PlayReply::Done).outcome(), Some(Ok(())));
    let game = play("ranger", Platform::Windows)
        .next(PlayReply::Done)
        .next(PlayReply::Entries(entries(&["ranger.exe", "unins.exe"])));
    assert_eq!(shown(&game), "run 0 games|ranger");
}

#[test]
fn games_that_cannot_be_played() {
    let outcome = |play: Play| play.outcome().unwrap().unwrap_err();
    assert_eq!(outcome(play("nothing", Platform::Mac)), "unknown game");
    assert_eq!(
        outcome(play("ranger", Platform::Other).next(PlayReply::Done)),
        "native games aren't supported on this platform"
    );
    assert_eq!(
        outcome(
            play("ranger", Platform::Windows)
                .next(PlayReply::Done)
                .next(PlayReply::Entries(entries(&["index.html"])))
        ),
        "that game isn't installed yet"
    );
    assert_eq!(
        outcome(play("wingman", Platform::Mac).next(PlayReply::Done).next(PlayReply::Exists(false))),
        "that game isn't installed yet"
    );
    assert_eq!(outcome(claiming().next(PlayReply::Missing)), "server lock poisoned");
    assert_eq!(
        outcome(showing().next(PlayReply::Missing)),
        "no window"
    );
}

#[test]
fn failures_of_playing_are_told() {
    let broken = Some(Err("broken".to_string()));
    assert_eq!(failed(play("ranger", Platform::Mac)), broken);
    assert_eq!(
        failed(
            play("ranger", Platform::Mac)
                .next(PlayReply::Done)
                .next(PlayReply::Entries(entries(&["a.app"])))
        ),
        broken
    );
    assert_eq!(failed(claiming().next_holding(PlayReply::Done, &mut Ports::new())), broken);
    assert_eq!(failed(showing()), broken);
}

#[test]
fn the_entry_to_launch() {
    let both = entries(&["a.exe", "b.app"]);
    assert_eq!(launch_native(Platform::Mac, &both), Ok(1));
    assert_eq!(launch_native(Platform::Windows, &both), Ok(0));
    assert_eq!(
        launch_native(Platform::Mac, &Vec::new()),
        Err("that game isn't installed yet".to_string())
    );
    assert_eq!(
        launch_native(Platform::Other, &both),
        Err("native games aren't supported on this platform".to_string())
    );
}

#[test]
fn each_web_game_has_its_own_origin() {
    let mut origins: Vec<String> = Vec::new();
    for game in catalog() {
        match game.delivery {
            Delivery::Web { port, .. } => origins.push(game_url(port)),
            Delivery::Native { .. } => {}
        }
    }
    assert_eq!(origins, vec!["http://127.0.0.1:47824/", "http://127.0.0.1:47826/"]);
}

#[test]
fn replies_that_do_not_belong_are_ignored() {
    let game = claiming().next(PlayReply::Contents(None)).next(PlayReply::Exists(false));
    assert_eq!(shown(&game), "claim 47826");
}
