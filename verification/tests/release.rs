use baz_launcher::http::HttpStatus;
use baz_launcher::json::parse;
use baz_launcher::release::{
    bundle_url, is_game_release, latest_of, newest_release_in, payload_asset, release_status,
    releases_url, RATE_LIMITED,
};

const TAIL: &str = "-windows-x86_64.zip";

fn failure(body: &[u8]) -> String {
    match newest_release_in(body, TAIL) {
        Ok(_) => panic!("a release was found"),
        Err(e) => e,
    }
}

#[test]
fn bundles_are_matched_by_their_ending() {
    let release = parse(
        br#"{"assets":[
            {"name":"notes.txt","browser_download_url":"u0"},
            {"name":"game-v0.3.0-windows-x86_64.zip"},
            {"name":7,"browser_download_url":"u1"},
            {"name":"game-v0.3.1-windows-x86_64.zip","browser_download_url":"u2"},
            {"name":"other-windows-x86_64.zip","browser_download_url":"u3"}]}"#,
    )
    .unwrap();
    assert_eq!(bundle_url(&release, TAIL), Some("u2".to_string()));
    assert_eq!(bundle_url(&release, ".dmg"), None);
    assert_eq!(bundle_url(&parse(br#"{"assets":{}}"#).unwrap(), TAIL), None);
    assert_eq!(bundle_url(&parse(b"{}").unwrap(), TAIL), None);
    assert_eq!(bundle_url(&parse(b"null").unwrap(), TAIL), None);
}

#[test]
fn payloads_are_matched_like_bundles() {
    let release = parse(
        br#"{"assets":[
            {"name":"a.gguf"},
            {"name":"b.gguf","browser_download_url":"u","size":12},
            {"name":"c.bin","browser_download_url":"w","size":-3}]}"#,
    )
    .unwrap();
    assert_eq!(
        payload_asset(&release, ".gguf"),
        Some(("u".to_string(), "b.gguf".to_string(), 12))
    );
    assert_eq!(bundle_url(&release, ".gguf"), Some("u".to_string()));
    assert_eq!(
        payload_asset(&release, ".bin"),
        Some(("w".to_string(), "c.bin".to_string(), 0))
    );
    assert_eq!(payload_asset(&release, ".zip"), None);
}

#[test]
fn the_first_published_release_with_the_bundle_is_the_newest() {
    let body = br#"[
        {"tag_name":"v9","draft":true,
         "assets":[{"name":"g-windows-x86_64.zip","browser_download_url":"draft"}]},
        {"tag_name":"v8","prerelease":true,
         "assets":[{"name":"g-windows-x86_64.zip","browser_download_url":"pre"}]},
        {"tag_name":"launcher-7","assets":[{"name":"setup.exe","browser_download_url":"no"}]},
        {"tag_name":"","assets":[{"name":"g-windows-x86_64.zip","browser_download_url":"tagless"}]},
        {"assets":[{"name":"g-windows-x86_64.zip","browser_download_url":"tagless too"}]},
        {"tag_name":"v6","draft":false,"prerelease":false,"body":"Notes",
         "assets":[{"name":"g-windows-x86_64.zip","browser_download_url":"six"}]},
        {"tag_name":"v5","assets":[{"name":"g-windows-x86_64.zip","browser_download_url":"five"}]}]"#;
    let release = match newest_release_in(body, TAIL) {
        Ok(release) => release,
        Err(e) => panic!("{}", e),
    };
    assert!(is_game_release(&release, TAIL));
    let latest = match latest_of(&release, TAIL) {
        Ok(latest) => latest,
        Err(e) => panic!("{}", e),
    };
    assert_eq!(latest.version, "6");
    assert_eq!(latest.url, "six");
    assert_eq!(latest.notes, "Notes");
}

#[test]
fn a_payload_release_is_passed_over() {
    let body = br#"[{"tag_name":"models-1",
        "assets":[{"name":"weights.gguf","browser_download_url":"u","size":5}]}]"#;
    for tail in
        [TAIL, "-macos-aarch64.app.tar.gz", "wingman-game.zip", "crashout-game.zip"].iter()
    {
        assert!(newest_release_in(body, tail).is_err());
    }
}

#[test]
fn versions_lose_every_leading_v() {
    let with_tag = |tag: &str| {
        let body = format!(
            "{{\"tag_name\":\"{}\",\"assets\":[{{\"name\":\"x.zip\",\"browser_download_url\":\"u\"}}]}}",
            tag
        );
        match latest_of(&parse(body.as_bytes()).unwrap(), "x.zip") {
            Ok(latest) => latest,
            Err(e) => panic!("{}", e),
        }
    };
    assert_eq!(with_tag("v1.2").version, "1.2");
    assert_eq!(with_tag("vv1").version, "1");
    assert_eq!(with_tag("1.v").version, "1.v");
    assert_eq!(with_tag("v1").notes, "");
}

#[test]
fn a_release_without_the_bundle_is_not_told() {
    match latest_of(&parse(br#"{"tag_name":"v1","assets":[]}"#).unwrap(), TAIL) {
        Ok(_) => panic!("it was told"),
        Err(e) => assert_eq!(e, "no published game release found"),
    }
}

#[test]
fn answers_without_a_release() {
    assert_eq!(failure(b"[]"), "no published game release found");
    assert_eq!(failure(br#"{"message":"Not Found"}"#), "unexpected GitHub response");
    assert_eq!(failure(b"<html>"), "error decoding response body");
}

#[test]
fn the_limit_on_calls_is_named() {
    let verdict =
        |code: u16, left: Option<&str>| release_status(&HttpStatus::from_u16(code).unwrap(), left);
    assert_eq!(verdict(200, None), Ok(()));
    assert_eq!(verdict(204, Some("0")), Ok(()));
    assert_eq!(verdict(403, Some("0")), Err(RATE_LIMITED.to_string()));
    assert_eq!(verdict(429, Some("0")), Err(RATE_LIMITED.to_string()));
    assert_eq!(verdict(403, Some("12")), Err("GitHub returned 403 Forbidden".to_string()));
    assert_eq!(verdict(403, None), Err("GitHub returned 403 Forbidden".to_string()));
    assert_eq!(
        verdict(429, Some("")),
        Err("GitHub returned 429 Too Many Requests".to_string())
    );
    assert_eq!(verdict(404, Some("0")), Err("GitHub returned 404 Not Found".to_string()));
    assert_eq!(
        RATE_LIMITED,
        "GitHub is rate-limiting this machine (60 checks an hour). Version unknown until it clears — usually within the hour."
    );
}

#[test]
fn where_releases_are_listed() {
    assert_eq!(
        releases_url("Baz-Studios-LLC/Wingman"),
        "https://api.github.com/repos/Baz-Studios-LLC/Wingman/releases?per_page=20"
    );
}
