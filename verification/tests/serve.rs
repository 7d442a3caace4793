use baz_launcher::platform::Platform;
use baz_launcher::serve::{content_type, route, Answer, FileReply, Request};

fn shown(request: &Request) -> String {
    match request {
        Request::Probe(parts) => format!("probe {}", parts.join("|")),
        Request::Read(parts) => format!("read {}", parts.join("|")),
        Request::Done(answer) => format!("{:?}", answer),
    }
}

fn asked(url: &str) -> String {
    shown(&route(url, Platform::Other))
}

fn kind(path: &str) -> &'static str {
    let parts: Vec<String> = path.split('/').map(|p| p.to_string()).collect();
    content_type(&parts)
}

#[test]
fn addresses_name_files() {
    assert_eq!(asked("/"), "probe index.html");
    assert_eq!(asked(""), "probe index.html");
    assert_eq!(asked("///"), "probe index.html");
    assert_eq!(asked("/?v=3"), "probe index.html");
    assert_eq!(asked("/js/main.js?t=1?2"), "probe js|main.js");
    assert_eq!(asked("//js//main.js/"), "probe js|main.js");
    assert_eq!(asked("/a%2e%2e/b"), "probe a%2e%2e|b");
    assert_eq!(asked("/..."), "probe ...");
}

#[test]
fn names_of_the_launcher() {
    assert_eq!(asked("/__gamepad"), "Pads");
    assert_eq!(asked("__gamepad?x"), "Pads");
    assert_eq!(asked("//__quit"), "Quit");
    assert_eq!(asked("/__gamepad/"), "probe __gamepad");
    assert_eq!(asked("/js/__quit"), "probe js|__quit");
}

#[test]
fn stray_parts_are_not_found() {
    assert_eq!(asked("/../secret"), "NotFound");
    assert_eq!(asked("/a/.."), "NotFound");
    assert_eq!(asked("/a\\b"), "NotFound");
    assert_eq!(asked("/a/b\\..\\c"), "NotFound");
    assert_eq!(asked("/ok?../x"), "probe ok");
}

#[test]
fn on_windows_no_part_names_a_drive() {
    let urls = vec!["/C:/a", "/C:", "/js/D:x.js", "/a/b:c"];
    for url in urls {
        assert_eq!(shown(&route(url, Platform::Windows)), "NotFound");
    }
    assert_eq!(shown(&route("/js/a.js?t=1:2", Platform::Windows)), "probe js|a.js");
    let kept = vec![
        ("/js/foo:bar.js", "probe js|foo:bar.js"),
        ("/index.html::$DATA", "probe index.html::$DATA"),
        ("/1:x", "probe 1:x"),
        ("/:", "probe :"),
        ("/\u{e9}:x", "probe \u{e9}:x"),
    ];
    for (url, expected) in kept {
        assert_eq!(shown(&route(url, Platform::Windows)), expected);
    }
    assert_eq!(shown(&route("/C:/a", Platform::Mac)), "probe C:|a");
    assert_eq!(shown(&route("/a:b.js", Platform::Other)), "probe a:b.js");
    assert_eq!(shown(&route("/..", Platform::Windows)), "NotFound");
}

#[test]
fn a_request_keeps_to_its_file() {
    let mut request = route("/js/a.js", Platform::Windows);
    for reply in vec![FileReply::Data, FileReply::IsFile(true), FileReply::IsFile(true)] {
        request = request.next(reply);
    }
    assert_eq!(shown(&request), "read js|a.js");
    let request = request.next(FileReply::Data).next(FileReply::IsFile(false));
    assert_eq!(shown(&request), "File(\"text/javascript; charset=utf-8\")");
}

#[test]
fn a_file_is_probed_read_and_answered() {
    let request = route("/art/hero.png", Platform::Mac).next(FileReply::IsFile(true));
    assert_eq!(shown(&request), "read art|hero.png");
    let request = request.next(FileReply::Data);
    assert_eq!(shown(&request), "File(\"image/png\")");
    assert_eq!(shown(&route("/x", Platform::Windows).next(FileReply::IsFile(false))), "NotFound");
    assert_eq!(
        shown(&route("/x", Platform::Windows).next(FileReply::IsFile(true)).next(FileReply::Failed)),
        "ReadError"
    );
    assert_eq!(shown(&route("/x", Platform::Windows).next(FileReply::Data)), "probe x");
}

#[test]
fn content_goes_by_the_extension() {
    let kinds: Vec<(&str, &str)> = vec![
        ("a.html", "text/html; charset=utf-8"),
        ("a.js", "text/javascript; charset=utf-8"),
        ("a.css", "text/css; charset=utf-8"),
        ("a.json", "application/json; charset=utf-8"),
        ("a.png", "image/png"),
        ("a.jpg", "image/jpeg"),
        ("a.jpeg", "image/jpeg"),
        ("a.gif", "image/gif"),
        ("a.svg", "image/svg+xml"),
        ("a.wav", "audio/wav"),
        ("a.mp3", "audio/mpeg"),
        ("a.ogg", "audio/ogg"),
        ("a.woff2", "font/woff2"),
        ("a.HTML", "application/octet-stream"),
        ("a.b.js", "text/javascript; charset=utf-8"),
        ("a.js.", "application/octet-stream"),
        (".js", "application/octet-stream"),
        ("..js", "text/javascript; charset=utf-8"),
        ("js", "application/octet-stream"),
        ("x.js/data", "application/octet-stream"),
        ("x/a.js/.", "text/javascript; charset=utf-8"),
    ];
    for (path, expected) in kinds {
        assert_eq!(kind(path), expected, "{}", path);
    }
    assert_eq!(content_type(&Vec::new()), "application/octet-stream");
}

#[test]
fn answers_as_they_are_sent() {
    let all = vec![
        (Answer::Pads, 200, Some("application/json"), None),
        (Answer::Quit, 200, None, Some("bye")),
        (Answer::NotFound, 404, None, Some("Not found")),
        (Answer::ReadError, 500, None, Some("Read error")),
        (Answer::File("image/gif"), 200, Some("image/gif"), None),
    ];
    for (answer, status, kind, text) in all {
        assert_eq!(answer.status(), status);
        assert_eq!(answer.content_type(), kind);
        assert_eq!(answer.text(), text);
        assert_eq!(answer.restarts(), answer == Answer::Quit);
    }
}
