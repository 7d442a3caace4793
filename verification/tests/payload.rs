use baz_launcher::catalog::{game_by_slug, Game};
use baz_launcher::http::HttpStatus;
use baz_launcher::json::parse;
use baz_launcher::payload::{fetch_payload, tag_url, FetchAction, FetchReply, PayloadFetch};
use baz_launcher::platform::Platform;

const RELEASE: &[u8] = br#"{"tag_name":"models-1","assets":[
    {"name":"weights.gguf","browser_download_url":"https://x/weights.gguf","size":10}]}"#;
const UNSIZED: &[u8] = br#"{"tag_name":"models-1","assets":[
    {"name":"weights.gguf","browser_download_url":"https://x/weights.gguf"}]}"#;

fn game() -> Game {
    game_by_slug("divus-factus").unwrap()
}

fn status(code: u16) -> FetchReply {
    FetchReply::Status(HttpStatus::from_u16(code).unwrap())
}

fn shown(fetch: &PayloadFetch) -> String {
    match fetch.action() {
        FetchAction::Get(url) => format!("get {}", url),
        FetchAction::ReadBody => "read".to_string(),
        FetchAction::Probe(p) => format!("probe {}", p.join("|")),
        FetchAction::MakeDir(p) => format!("mkdir {}", p.join("|")),
        FetchAction::Download(url) => format!("download {}", url),
        FetchAction::Create(p) => format!("create {}", p.join("|")),
        FetchAction::Pull => "pull".to_string(),
        FetchAction::Remove(p) => format!("remove {}", p.join("|")),
        FetchAction::Rename(p, q) => format!("rename {} {}", p.join("|"), q.join("|")),
        FetchAction::Nothing => "nothing".to_string(),
    }
}

/// A fetch that has read the release and looks for the file.
fn probing(body: &[u8]) -> PayloadFetch {
    fetch_payload(&game(), Platform::Other, Some("/home/b"))
        .next(status(200))
        .next(FetchReply::Body(body.to_vec()))
}

/// A fetch that takes the file's bytes.
fn pulling(body: &[u8]) -> PayloadFetch {
    probing(body)
        .next(FetchReply::Size(None))
        .next(FetchReply::Done)
        .next(status(200))
        .next(FetchReply::Done)
}

#[test]
fn a_missing_payload_comes_down_whole() {
    let fetch = fetch_payload(&game(), Platform::Other, Some("/home/b"));
    assert_eq!(
        shown(&fetch),
        "get https://api.github.com/repos/Baz-Studios-LLC/egregore/releases/tags/models-1"
    );
    let fetch = fetch.next(status(200));
    assert_eq!(shown(&fetch), "read");
    let fetch = fetch.next(FetchReply::Body(RELEASE.to_vec()));
    assert_eq!(shown(&fetch), "probe /home/b|.local/share|divus-factus|models|weights.gguf");
    let fetch = fetch.next(FetchReply::Size(None));
    assert_eq!(shown(&fetch), "mkdir /home/b|.local/share|divus-factus|models");
    let fetch = fetch.next(FetchReply::Done);
    assert_eq!(shown(&fetch), "download https://x/weights.gguf");
    let fetch = fetch.next(status(200));
    assert_eq!(shown(&fetch), "create /home/b|.local/share|divus-factus|models|weights.gguf.part");
    let fetch = fetch.next(FetchReply::Done);
    assert_eq!(shown(&fetch), "pull");
    let fetch = fetch.next(FetchReply::Chunk(4)).next(FetchReply::Chunk(6));
    assert_eq!(shown(&fetch), "pull");
    let fetch = fetch.next(FetchReply::End);
    assert_eq!(
        shown(&fetch),
        "rename /home/b|.local/share|divus-factus|models|weights.gguf.part \
         /home/b|.local/share|divus-factus|models|weights.gguf"
    );
    assert_eq!(fetch.outcome(), None);
    let fetch = fetch.next(FetchReply::Done);
    assert_eq!(shown(&fetch), "nothing");
    assert_eq!(fetch.outcome(), Some(Ok(())));
}

#[test]
fn a_payload_that_is_there_is_left_alone() {
    let fetch = probing(RELEASE).next(FetchReply::Size(Some(10)));
    assert_eq!(shown(&fetch), "nothing");
    assert_eq!(fetch.outcome(), Some(Ok(())));
    let fetch = probing(UNSIZED).next(FetchReply::Size(Some(3)));
    assert_eq!(fetch.outcome(), Some(Ok(())));
}

#[test]
fn a_second_fetch_downloads_nothing() {
    for (body, chunks) in vec![(RELEASE, vec![4u64, 6]), (UNSIZED, vec![7, 0, 9])] {
        let mut disk: Vec<(String, u64)> = Vec::new();
        let mut downloads = 0;
        for _ in 0..2 {
            let mut left = chunks.clone();
            let mut fetch = fetch_payload(&game(), Platform::Other, Some("/home/b"));
            while fetch.outcome().is_none() {
                let reply = match fetch.action() {
                    FetchAction::Get(_) => status(200),
                    FetchAction::ReadBody => FetchReply::Body(body.to_vec()),
                    FetchAction::Probe(p) => FetchReply::Size(
                        disk.iter().find(|f| f.0 == p.join("|")).map(|f| f.1),
                    ),
                    FetchAction::MakeDir(_) => FetchReply::Done,
                    FetchAction::Download(_) => {
                        downloads += 1;
                        status(200)
                    }
                    FetchAction::Create(p) => {
                        disk.push((p.join("|"), 0));
                        FetchReply::Done
                    }
                    FetchAction::Pull => {
                        if left.is_empty() {
                            FetchReply::End
                        } else {
                            let n = left.remove(0);
                            let last = disk.len() - 1;
                            disk[last].1 += n;
                            FetchReply::Chunk(n)
                        }
                    }
                    FetchAction::Rename(p, q) => {
                        for f in disk.iter_mut() {
                            if f.0 == p.join("|") {
                                f.0 = q.join("|");
                            }
                        }
                        FetchReply::Done
                    }
                    FetchAction::Remove(_) | FetchAction::Nothing => unreachable!(),
                };
                fetch = fetch.next(reply);
            }
            assert_eq!(fetch.outcome(), Some(Ok(())));
        }
        assert_eq!(downloads, 1);
        assert_eq!(disk.len(), 1);
    }
}

#[test]
fn a_target_is_left_alone_until_its_file_is_whole() {
    let target = "/home/b|.local/share|divus-factus|models|weights.gguf";
    let part = format!("{}.part", target);
    let replies = || {
        vec![
            FetchReply::Size(Some(3)),
            FetchReply::Done,
            status(200),
            FetchReply::Done,
            FetchReply::Chunk(4),
            FetchReply::Chunk(6),
            FetchReply::End,
        ]
    };
    for count in 0..replies().len() + 1 {
        let mut fetch = probing(RELEASE);
        for reply in replies().into_iter().take(count) {
            match fetch.action() {
                FetchAction::Create(at) | FetchAction::Remove(at) => {
                    assert_eq!(at.join("|"), part)
                }
                FetchAction::Rename(_, _) => panic!("it is not whole yet"),
                _ => {}
            }
            fetch = fetch.next(reply);
        }
        match fetch.action() {
            FetchAction::Rename(from, to) => {
                assert_eq!(count, replies().len());
                assert_eq!(from.join("|"), part);
                assert_eq!(to.join("|"), target);
            }
            _ => assert!(count < replies().len()),
        }
    }
}

#[test]
fn a_decoded_release_is_taken_once() {
    let reading = || fetch_payload(&game(), Platform::Other, Some("/home/b")).next(status(200));
    let fetch = reading().with_release(parse(RELEASE));
    assert_eq!(shown(&fetch), "probe /home/b|.local/share|divus-factus|models|weights.gguf");
    let fetch = fetch.with_release(None);
    assert_eq!(shown(&fetch), "probe /home/b|.local/share|divus-factus|models|weights.gguf");
    assert_eq!(
        reading().with_release(None).outcome(),
        Some(Err("error decoding response body".to_string()))
    );
    assert_eq!(reading().with_release(parse(b"{}")).outcome(), Some(Ok(())));
    let early = fetch_payload(&game(), Platform::Other, None).with_release(parse(RELEASE));
    assert!(shown(&early).starts_with("get "));
    assert_eq!(
        fetch_payload(&game(), Platform::Other, None)
            .next(status(200))
            .with_release(parse(RELEASE))
            .outcome(),
        Some(Err("could not find the game's support directory".to_string()))
    );
}

#[test]
fn a_truncated_payload_is_fetched_again() {
    let fetch = probing(RELEASE).next(FetchReply::Size(Some(9)));
    assert_eq!(shown(&fetch), "mkdir /home/b|.local/share|divus-factus|models");
}

#[test]
fn a_short_file_is_thrown_away() {
    let fetch = pulling(RELEASE).next(FetchReply::Chunk(7)).next(FetchReply::End);
    assert_eq!(shown(&fetch), "remove /home/b|.local/share|divus-factus|models|weights.gguf.part");
    let expected = Some(Err("payload weights.gguf arrived 7 bytes of 10".to_string()));
    let removed = fetch.next(FetchReply::Done);
    assert_eq!(removed.outcome(), expected);
    let kept = pulling(RELEASE)
        .next(FetchReply::Chunk(7))
        .next(FetchReply::End)
        .next(FetchReply::Failed("busy".to_string()));
    assert_eq!(kept.outcome(), expected);
}

#[test]
fn a_long_file_is_thrown_away() {
    let fetch = pulling(RELEASE)
        .next(FetchReply::Chunk(11))
        .next(FetchReply::End)
        .next(FetchReply::Done);
    assert_eq!(
        fetch.outcome(),
        Some(Err("payload weights.gguf arrived 11 bytes of 10".to_string()))
    );
}

#[test]
fn a_file_without_a_size_is_whole_as_it_comes() {
    let fetch = pulling(UNSIZED).next(FetchReply::Chunk(3)).next(FetchReply::End);
    assert!(shown(&fetch).starts_with("rename "));
}

#[test]
fn a_release_that_is_not_there_is_no_error() {
    let fetch = fetch_payload(&game(), Platform::Other, Some("/home/b")).next(status(404));
    assert_eq!(fetch.outcome(), Some(Ok(())));
    let fetch = probing(br#"{"assets":[{"name":"a.bin","browser_download_url":"u"}]}"#);
    assert_eq!(fetch.outcome(), Some(Ok(())));
}

#[test]
fn games_without_a_payload_have_nothing_fetched() {
    let other = game_by_slug("ranger").unwrap();
    let fetch = fetch_payload(&other, Platform::Mac, Some("/Users/b"));
    assert_eq!(shown(&fetch), "nothing");
    assert_eq!(fetch.outcome(), Some(Ok(())));
}

#[test]
fn failures_of_a_fetch_are_told() {
    let failed = |fetch: PayloadFetch| fetch.next(FetchReply::Failed("broken".to_string()));
    let broken = Some(Err("broken".to_string()));
    let start = || fetch_payload(&game(), Platform::Other, Some("/home/b"));
    assert_eq!(failed(start()).outcome(), broken);
    assert_eq!(failed(start().next(status(200))).outcome(), broken);
    let mkdir = || probing(RELEASE).next(FetchReply::Size(None));
    assert_eq!(failed(mkdir()).outcome(), broken);
    let request = || mkdir().next(FetchReply::Done);
    assert_eq!(failed(request()).outcome(), broken);
    assert_eq!(
        request().next(status(503)).outcome(),
        Some(Err("payload download returned 503 Service Unavailable".to_string()))
    );
    assert_eq!(failed(request().next(status(200))).outcome(), broken);
    assert_eq!(failed(pulling(RELEASE)).outcome(), broken);
    let rename = pulling(RELEASE).next(FetchReply::Chunk(10)).next(FetchReply::End);
    assert_eq!(failed(rename).outcome(), broken);
    assert_eq!(
        start().next(status(200)).next(FetchReply::Body(b"<".to_vec())).outcome(),
        Some(Err("error decoding response body".to_string()))
    );
    assert_eq!(
        fetch_payload(&game(), Platform::Mac, None)
            .next(status(200))
            .next(FetchReply::Body(RELEASE.to_vec()))
            .outcome(),
        Some(Err("could not find the game's support directory".to_string()))
    );
}

#[test]
fn a_fetch_that_has_ended_stays_ended() {
    let fetch = probing(RELEASE).next(FetchReply::Size(Some(10))).next(status(404));
    assert_eq!(fetch.next(FetchReply::Failed("late".to_string())).outcome(), Some(Ok(())));
}

#[test]
fn bytes_are_counted_as_far_as_they_can_be() {
    let fetch = pulling(UNSIZED).next(FetchReply::Chunk(u64::MAX - 1));
    assert!(fetch.has_room(1));
    assert!(!fetch.has_room(2));
    assert!(probing(UNSIZED).has_room(u64::MAX));
}

#[test]
fn where_a_tag_is_described() {
    assert_eq!(tag_url("o/r", "t"), "https://api.github.com/repos/o/r/releases/tags/t");
}
