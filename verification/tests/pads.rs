use baz_launcher::pads::{
    gp_axis, gp_button, gp_json, no_pads, pad_state, standard_buttons, PadAxis, PadButton, PadFeed,
    PadReading,
};

const UP: &str = "{\"pressed\":false,\"touched\":false,\"value\":0.000}";

fn pad(name: &str, connected: bool) -> PadReading {
    PadReading {
        name: name.to_string(),
        connected,
        pressed: Vec::new(),
        values: Vec::new(),
        axes: Vec::new(),
    }
}

fn idle(index: usize, name: &str) -> String {
    format!(
        "{{\"index\":{},\"id\":\"{}\",\"mapping\":\"standard\",\"connected\":true,\"buttons\":[{}],\"axes\":[0.000,-0.000,0.000,-0.000]}}",
        index,
        name,
        vec![UP; 17].join(",")
    )
}

#[test]
fn buttons_in_json() {
    let mut reading = pad("p", true);
    reading.pressed = vec![PadButton::South, PadButton::LeftTrigger2];
    reading.values = vec![
        (PadButton::LeftTrigger2, "0.750".to_string()),
        (PadButton::RightTrigger2, "0.100".to_string()),
    ];
    assert_eq!(
        gp_button(&reading, PadButton::South),
        "{\"pressed\":true,\"touched\":true,\"value\":1.000}"
    );
    assert_eq!(
        gp_button(&reading, PadButton::LeftTrigger2),
        "{\"pressed\":true,\"touched\":true,\"value\":0.750}"
    );
    assert_eq!(
        gp_button(&reading, PadButton::RightTrigger2),
        "{\"pressed\":false,\"touched\":false,\"value\":0.100}"
    );
    assert_eq!(gp_button(&reading, PadButton::Mode), UP);
}

#[test]
fn vertical_axes_are_turned() {
    let mut reading = pad("p", true);
    reading.axes = vec![
        (PadAxis::LeftStickX, format!("{:.3}", 0.25f32)),
        (PadAxis::LeftStickY, format!("{:.3}", 0.5f32)),
        (PadAxis::RightStickY, format!("{:.3}", -1.0f32)),
    ];
    assert_eq!(gp_axis(&reading, PadAxis::LeftStickY), "0.500");
    assert_eq!(gp_axis(&reading, PadAxis::RightStickX), "0.000");
    let json = gp_json(0, &reading);
    assert!(json.ends_with("\"axes\":[0.250,-0.500,0.000,1.000]}"));
}

#[test]
fn turned_text_is_the_text_of_the_turned_number() {
    let numbers: Vec<f32> = vec![
        0.0,
        -0.0,
        0.0004,
        -0.0004,
        0.0005,
        0.12345,
        -0.99951,
        1.0,
        f32::NAN,
        f32::INFINITY,
        f32::NEG_INFINITY,
    ];
    for v in numbers {
        let mut reading = pad("p", true);
        reading.axes = vec![(PadAxis::LeftStickY, format!("{:.3}", v))];
        let expected = format!("\"axes\":[0.000,{:.3},0.000,-0.000]}}", -v);
        assert!(gp_json(0, &reading).ends_with(&expected), "{}", v);
    }
}

#[test]
fn a_controller_in_json() {
    assert_eq!(gp_json(12, &pad("Pad", true)), idle(12, "Pad"));
    assert_eq!(gp_json(0, &pad("a\\b \"c\"", true)), idle(0, "a b 'c'"));
    let order = standard_buttons();
    assert_eq!(order.len(), 17);
    assert_eq!(order[0], PadButton::South);
    assert_eq!(order[3], PadButton::North);
    assert_eq!(order[12], PadButton::DPadUp);
    assert_eq!(order[16], PadButton::Mode);
}

#[test]
fn whatever_its_name_a_controller_is_json() {
    for name in vec!["Pad", "a\nb", "\u{1}\u{1f}", "\\\"\t", "caf\u{e9} \u{7f}", ""] {
        let json = gp_json(3, &pad(name, true));
        let value: serde_json::Value = serde_json::from_str(&json).unwrap();
        assert_eq!(value["index"].as_u64(), Some(3));
        assert_eq!(value["mapping"].as_str(), Some("standard"));
        assert_eq!(value["connected"].as_bool(), Some(true));
        assert_eq!(value["buttons"].as_array().unwrap().len(), 17);
        assert_eq!(value["axes"].as_array().unwrap().len(), 4);
        assert_eq!(value["id"].as_str().unwrap().chars().count(), name.chars().count());
    }
    assert_eq!(gp_json(0, &pad("a\nb\u{1}", true)), idle(0, "a b "));
    assert_eq!(gp_json(0, &pad("\u{7f}\u{e9}", true)), idle(0, "\u{7f}\u{e9}"));
}

#[test]
fn one_feed_is_started_once() {
    let mut feed = PadFeed::new();
    assert_eq!(feed.text(), "[]");
    assert!(feed.open());
    assert_eq!(feed.text(), "[]");
    assert!(!feed.open());
    feed.publish(&vec![pad("a", true)]);
    assert_eq!(feed.text(), format!("[{}]", idle(0, "a")));
    assert!(!feed.open());
    assert_eq!(feed.text(), format!("[{}]", idle(0, "a")));
    feed.publish(&Vec::new());
    assert_eq!(feed.text(), "[]");
}

#[test]
fn only_connected_controllers_are_seen() {
    assert_eq!(pad_state(&Vec::new()), "[]");
    assert_eq!(no_pads(), "[]");
    let all = vec![pad("a", false), pad("b", true), pad("c", false), pad("d", true)];
    assert_eq!(pad_state(&all), format!("[{},{}]", idle(1, "b"), idle(3, "d")));
    assert_eq!(pad_state(&vec![pad("a", false)]), "[]");
}
