//! The controllers' state as the games read it: a list of gamepads in the
//! "standard" mapping, written as JSON. Positions of sticks and triggers come
//! as decimal text with three places.

use crate::search::{first, lemma_first};
use crate::text::{
    chars_of, decimal, decimal_text, join, joined, joined_pair, same_text, texts,
};
use vstd::prelude::*;

verus! {

/// The buttons of a controller.
#[derive(Clone, Copy, Debug, PartialEq, Eq, Structural)]
pub enum PadButton {
    South,
    East,
    West,
    North,
    LeftTrigger,
    RightTrigger,
    LeftTrigger2,
    RightTrigger2,
    Select,
    Start,
    LeftThumb,
    RightThumb,
    DPadUp,
    DPadDown,
    DPadLeft,
    DPadRight,
    Mode,
}

/// The axes of a controller.
#[derive(Clone, Copy, Debug, PartialEq, Eq, Structural)]
pub enum PadAxis {
    LeftStickX,
    LeftStickY,
    RightStickX,
    RightStickY,
}

/// The state of a controller. Positions are decimal text with three places.
pub struct PadReading {
    pub name: String,
    pub connected: bool,
    /// The buttons that are held down.
    pub pressed: Vec<PadButton>,
    /// How far the buttons that can tell are held down.
    pub values: Vec<(PadButton, String)>,
    /// Where the axes that the controller has stand.
    pub axes: Vec<(PadAxis, String)>,
}

#[verifier::ext_equal]
pub struct PadFacts {
    pub name: Seq<char>,
    pub connected: bool,
    pub pressed: Seq<PadButton>,
    pub values: Seq<(PadButton, Seq<char>)>,
    pub axes: Seq<(PadAxis, Seq<char>)>,
}

impl View for PadReading {
    type V = PadFacts;

    open spec fn view(&self) -> PadFacts {
        PadFacts {
            name: self.name@,
            connected: self.connected,
            pressed: self.pressed@,
            values: self.values@.map_values(|v: (PadButton, String)| (v.0, v.1@)),
            axes: self.axes@.map_values(|a: (PadAxis, String)| (a.0, a.1@)),
        }
    }
}

// ---- What is written ---------------------------------------------------------------------

/// A truth value in JSON.
pub open spec fn bool_json(b: bool) -> Seq<char> {
    if b {
        "true"@
    } else {
        "false"@
    }
}

/// The text is listed under the key.
pub open spec fn keyed<K>(key: K) -> spec_fn((K, Seq<char>)) -> bool {
    |pair: (K, Seq<char>)| pair.0 == key
}

/// The first text that is listed under a key.
pub open spec fn first_for<K>(list: Seq<(K, Seq<char>)>, key: K) -> Option<Seq<char>> {
    match first(list, keyed(key)) {
        Some(pair) => Some(pair.1),
        None => None,
    }
}

/// How far a button is held down. One that cannot tell is held down all the way
/// or not at all.
pub open spec fn button_value(pad: PadFacts, button: PadButton) -> Seq<char> {
    match first_for(pad.values, button) {
        Some(v) => v,
        None => if pad.pressed.contains(button) {
            "1.000"@
        } else {
            "0.000"@
        },
    }
}

/// A button in JSON.
pub open spec fn button_json(pad: PadFacts, button: PadButton) -> Seq<char> {
    let pressed = bool_json(pad.pressed.contains(button));
    "{\"pressed\":"@ + pressed + ",\"touched\":"@ + pressed + ",\"value\":"@ + button_value(
        pad,
        button,
    ) + "}"@
}

/// Where an axis stands: at rest where the controller does not have it.
pub open spec fn axis_value(pad: PadFacts, axis: PadAxis) -> Seq<char> {
    match first_for(pad.axes, axis) {
        Some(v) => v,
        None => "0.000"@,
    }
}

/// The text of a number with its sign turned. What is no number has no sign.
pub open spec fn negated(v: Seq<char>) -> Seq<char> {
    if v.len() > 0 && v[0] == '-' {
        v.drop_first()
    } else if v == "NaN"@ {
        v
    } else {
        "-"@ + v
    }
}

/// The axes in the order of the standard mapping. There the vertical ones grow
/// downwards.
pub open spec fn axes_json(pad: PadFacts) -> Seq<Seq<char>> {
    seq![
        axis_value(pad, PadAxis::LeftStickX),
        negated(axis_value(pad, PadAxis::LeftStickY)),
        axis_value(pad, PadAxis::RightStickX),
        negated(axis_value(pad, PadAxis::RightStickY)),
    ]
}

/// A character of a name as it can stand between quotes. JSON has no room there
/// for a quote, a backslash or a control character.
pub open spec fn clean_char(c: char) -> char {
    if c == '\\' || (c as u32) < 0x20 {
        ' '
    } else if c == '"' {
        '\''
    } else {
        c
    }
}

/// A controller's name as it can stand between quotes.
pub open spec fn clean_name(name: Seq<char>) -> Seq<char> {
    name.map_values(|c: char| clean_char(c))
}

/// A controller in JSON.
pub open spec fn pad_json(index: nat, pad: PadFacts) -> Seq<char> {
    "{\"index\":"@ + decimal(index) + ",\"id\":\""@ + clean_name(pad.name)
        + "\",\"mapping\":\"standard\",\"connected\":true,\"buttons\":["@ + joined(
        button_order().map_values(|b: PadButton| button_json(pad, b)),
        ","@,
    ) + "],\"axes\":["@ + joined(axes_json(pad), ","@) + "]}"@
}

/// The controllers that are connected, each in JSON with its place among all of them.
pub open spec fn connected_json(pads: Seq<PadFacts>) -> Seq<Seq<char>>
    decreases pads.len(),
{
    if pads.len() == 0 {
        Seq::empty()
    } else {
        let before = connected_json(pads.drop_last());
        if pads.last().connected {
            before.push(pad_json((pads.len() - 1) as nat, pads.last()))
        } else {
            before
        }
    }
}

/// The controllers' state.
pub open spec fn snapshot_json(pads: Seq<PadFacts>) -> Seq<char> {
    "["@ + joined(connected_json(pads), ","@) + "]"@
}

/// What a list of controllers says.
pub open spec fn pad_facts(pads: Seq<PadReading>) -> Seq<PadFacts> {
    pads.map_values(|p: PadReading| p@)
}

/// The buttons in the order of the standard mapping.
pub open spec fn button_order() -> Seq<PadButton> {
    seq![
        PadButton::South,
        PadButton::East,
        PadButton::West,
        PadButton::North,
        PadButton::LeftTrigger,
        PadButton::RightTrigger,
        PadButton::LeftTrigger2,
        PadButton::RightTrigger2,
        PadButton::Select,
        PadButton::Start,
        PadButton::LeftThumb,
        PadButton::RightThumb,
        PadButton::DPadUp,
        PadButton::DPadDown,
        PadButton::DPadLeft,
        PadButton::DPadRight,
        PadButton::Mode,
    ]
}

// ---- Writing it ----------------------------------------------------------------------------

/// The buttons in the order of the standard mapping.
pub fn standard_buttons() -> (buttons: Vec<PadButton>)
    ensures
        buttons@ == button_order(),
{
    vec![
        PadButton::South,
        PadButton::East,
        PadButton::West,
        PadButton::North,
        PadButton::LeftTrigger,
        PadButton::RightTrigger,
        PadButton::LeftTrigger2,
        PadButton::RightTrigger2,
        PadButton::Select,
        PadButton::Start,
        PadButton::LeftThumb,
        PadButton::RightThumb,
        PadButton::DPadUp,
        PadButton::DPadDown,
        PadButton::DPadLeft,
        PadButton::DPadRight,
        PadButton::Mode,
    ]
}

fn bool_text(b: bool) -> (text: &'static str)
    ensures
        text@ == bool_json(b),
{
    if b {
        "true"
    } else {
        "false"
    }
}

impl PadReading {
    /// Whether a button is held down.
    pub fn is_pressed(&self, button: PadButton) -> (yes: bool)
        ensures
            yes == self@.pressed.contains(button),
    {
        let mut i: usize = 0;
        while i < self.pressed.len()
            invariant
                i <= self.pressed.len(),
                forall|k: int| 0 <= k < i ==> self.pressed@[k] != button,
            decreases self.pressed.len() - i,
        {
            if self.pressed[i] == button {
                assert(self@.pressed[i as int] == button);
                return true;
            }
            i += 1;
        }
        false
    }

    /// How far a button is held down, where it can tell.
    pub fn button_data(&self, button: PadButton) -> (value: Option<&String>)
        ensures
            (match value {
                Some(v) => Some(v@),
                None => None,
            }) == first_for(self@.values, button),
    {
        let ghost all = self@.values;
        let mut i: usize = 0;
        while i < self.values.len()
            invariant
                i <= self.values.len(),
                all == self@.values,
                forall|k: int| 0 <= k < i ==> (#[trigger] all[k]).0 != button,
            decreases self.values.len() - i,
        {
            if self.values[i].0 == button {
                proof {
                    lemma_first(all, keyed(button), i as int);
                }
                return Some(&self.values[i].1);
            }
            i += 1;
        }
        proof {
            lemma_first(all, keyed(button), i as int);
        }
        None
    }

    /// Where an axis stands, where the controller has it.
    pub fn axis_data(&self, axis: PadAxis) -> (value: Option<&String>)
        ensures
            (match value {
                Some(v) => Some(v@),
                None => None,
            }) == first_for(self@.axes, axis),
    {
        let ghost all = self@.axes;
        let mut i: usize = 0;
        while i < self.axes.len()
            invariant
                i <= self.axes.len(),
                all == self@.axes,
                forall|k: int| 0 <= k < i ==> (#[trigger] all[k]).0 != axis,
            decreases self.axes.len() - i,
        {
            if self.axes[i].0 == axis {
                proof {
                    lemma_first(all, keyed(axis), i as int);
                }
                return Some(&self.axes[i].1);
            }
            i += 1;
        }
        proof {
            lemma_first(all, keyed(axis), i as int);
        }
        None
    }
}

/// A button of a controller in JSON.
pub fn gp_button(pad: &PadReading, button: PadButton) -> (json: String)
    ensures
        json@ == button_json(pad@, button),
{
    let pressed = pad.is_pressed(button);
    let mut json = "{\"pressed\":".to_owned();
    json.append(bool_text(pressed));
    json.append(",\"touched\":");
    json.append(bool_text(pressed));
    json.append(",\"value\":");
    match pad.button_data(button) {
        Some(v) => {
            json.append(v.as_str());
        },
        None => {
            if pressed {
                json.append("1.000");
            } else {
                json.append("0.000");
            }
        },
    }
    json.append("}");
    json
}

/// Where an axis of a controller stands.
pub fn gp_axis(pad: &PadReading, axis: PadAxis) -> (value: String)
    ensures
        value@ == axis_value(pad@, axis),
{
    match pad.axis_data(axis) {
        Some(v) => v.clone(),
        None => "0.000".to_owned(),
    }
}

/// The text of a number with its sign turned.
fn turned(v: &str) -> (out: String)
    ensures
        out@ == negated(v@),
{
    let n = v.unicode_len();
    if n > 0 && v.get_char(0) == '-' {
        let rest = v.substring_char(1, n);
        assert(rest@ =~= v@.drop_first());
        rest.to_owned()
    } else if same_text(v, "NaN") {
        v.to_owned()
    } else {
        joined_pair("-", v)
    }
}

/// A controller's name as it can stand between quotes.
fn cleaned(name: &str) -> (out: String)
    ensures
        out@ == clean_name(name@),
{
    let chars = chars_of(name);
    let ghost whole = clean_name(name@);
    let mut out = String::new();
    let mut i: usize = 0;
    while i < chars.len()
        invariant
            i <= chars.len(),
            chars@ == name@,
            whole == clean_name(name@),
            out@ == whole.take(i as int),
        decreases chars.len() - i,
    {
        proof {
            assert(whole.take(i + 1) =~= whole.take(i as int).push(whole[i as int]));
        }
        let c = chars[i];
        if c == '\\' || (c as u32) < 0x20 {
            out.push(' ');
        } else if c == '"' {
            out.push('\'');
        } else {
            out.push(c);
        }
        i += 1;
    }
    proof {
        assert(whole.take(i as int) =~= whole);
    }
    out
}

/// A controller in JSON, with its place among all of them.
pub fn gp_json(index: usize, pad: &PadReading) -> (json: String)
    ensures
        json@ == pad_json(index as nat, pad@),
{
    let order = standard_buttons();
    let mut buttons: Vec<String> = Vec::new();
    let mut i: usize = 0;
    while i < order.len()
        invariant
            i <= order.len(),
            order@ == button_order(),
            buttons@.len() == i,
            forall|k: int|
                0 <= k < i ==> (#[trigger] buttons@[k])@ == button_json(pad@, button_order()[k]),
        decreases order.len() - i,
    {
        buttons.push(gp_button(pad, order[i]));
        i += 1;
    }
    let mut axes: Vec<String> = Vec::new();
    axes.push(gp_axis(pad, PadAxis::LeftStickX));
    axes.push(turned(gp_axis(pad, PadAxis::LeftStickY).as_str()));
    axes.push(gp_axis(pad, PadAxis::RightStickX));
    axes.push(turned(gp_axis(pad, PadAxis::RightStickY).as_str()));
    proof {
        assert(texts(buttons@) =~= button_order().map_values(
            |b: PadButton| button_json(pad@, b),
        ));
        assert(texts(axes@) =~= axes_json(pad@));
    }
    let id = cleaned(pad.name.as_str());
    let mut json = "{\"index\":".to_owned();
    json.append(decimal_text(index as u64).as_str());
    json.append(",\"id\":\"");
    json.append(id.as_str());
    json.append("\",\"mapping\":\"standard\",\"connected\":true,\"buttons\":[");
    json.append(join(&buttons, ",").as_str());
    json.append("],\"axes\":[");
    json.append(join(&axes, ",").as_str());
    json.append("]}");
    json
}

/// The controllers' state: those that are connected, each under its place among
/// all of them.
pub fn pad_state(pads: &Vec<PadReading>) -> (json: String)
    ensures
        json@ == snapshot_json(pad_facts(pads@)),
{
    let ghost all = pad_facts(pads@);
    let mut parts: Vec<String> = Vec::new();
    let mut i: usize = 0;
    proof {
        assert(texts(parts@) =~= connected_json(all.take(0)));
    }
    while i < pads.len()
        invariant
            i <= pads.len(),
            all == pad_facts(pads@),
            texts(parts@) == connected_json(all.take(i as int)),
        decreases pads.len() - i,
    {
        proof {
            assert(all.take(i + 1).drop_last() =~= all.take(i as int));
            assert(all.take(i + 1).last() == pads@[i as int]@);
        }
        if pads[i].connected {
            let ghost before = parts@;
            let part = gp_json(i, &pads[i]);
            parts.push(part);
            assert(texts(parts@) =~= texts(before).push(part@));
        }
        i += 1;
    }
    proof {
        assert(all.take(i as int) =~= all);
    }
    let mut json = "[".to_owned();
    json.append(join(&parts, ",").as_str());
    json.append("]");
    json
}

/// The state before any controller has been read, or where it cannot be had.
pub fn no_pads() -> (json: &'static str)
    ensures
        json@ == snapshot_json(Seq::empty()),
{
    proof {
        reveal_strlit("[");
        reveal_strlit("]");
        reveal_strlit("[]");
        assert("[]"@ =~= snapshot_json(Seq::empty()));
    }
    "[]"
}

// ---- The feed that the servers hand out --------------------------------------------------------

/// The one text that every server hands out, and whether it is kept current. The
/// controllers are read from the first time on that a server needs them.
pub struct PadFeed {
    polled: bool,
    text: String,
}

#[verifier::ext_equal]
pub struct FeedFacts {
    pub polled: bool,
    pub text: Seq<char>,
}

impl View for PadFeed {
    type V = FeedFacts;

    closed spec fn view(&self) -> FeedFacts {
        FeedFacts { polled: self.polled, text: self.text@ }
    }
}

/// The feed before anyone needs it.
pub open spec fn quiet_feed() -> FeedFacts {
    FeedFacts { polled: false, text: "[]"@ }
}

impl PadFeed {
    /// The feed before anyone needs it.
    pub fn new() -> (feed: PadFeed)
        ensures
            feed@ == quiet_feed(),
    {
        PadFeed { polled: false, text: "[]".to_owned() }
    }

    /// Notes that a server needs the feed. Says whether the reading of the
    /// controllers is to be started: the first time, and never again.
    pub fn open(&mut self) -> (start: bool)
        ensures
            start == !old(self)@.polled,
            final(self)@ == old(self)@.after(FeedEvent::Open),
    {
        let start = !self.polled;
        self.polled = true;
        start
    }

    /// Takes the controllers as they were last read.
    pub fn publish(&mut self, pads: &Vec<PadReading>)
        ensures
            final(self)@ == old(self)@.after(FeedEvent::Publish(pad_facts(pads@))),
    {
        self.text = pad_state(pads);
    }

    /// The controllers' state.
    pub fn text(&self) -> (text: &str)
        ensures
            text@ == self@.text,
    {
        self.text.as_str()
    }
}

// ---- Laws ------------------------------------------------------------------------------------

/// What happens to a feed.
pub enum FeedEvent {
    Open,
    Publish(Seq<PadFacts>),
}

impl FeedFacts {
    /// The feed after an event.
    pub open spec fn after(self, event: FeedEvent) -> FeedFacts {
        match event {
            FeedEvent::Open => FeedFacts { polled: true, ..self },
            FeedEvent::Publish(pads) => FeedFacts { text: snapshot_json(pads), ..self },
        }
    }
}

/// The feed after all these events, one after another.
pub open spec fn feed_after(events: Seq<FeedEvent>) -> FeedFacts
    decreases events.len(),
{
    if events.len() == 0 {
        quiet_feed()
    } else {
        feed_after(events.drop_last()).after(events.last())
    }
}

/// How often the events start the reading of the controllers.
pub open spec fn starts(events: Seq<FeedEvent>) -> nat
    decreases events.len(),
{
    if events.len() == 0 {
        0
    } else {
        let so_far = starts(events.drop_last());
        if events.last() is Open && !feed_after(events.drop_last()).polled {
            so_far + 1
        } else {
            so_far
        }
    }
}

/// What was last published.
pub open spec fn last_published(events: Seq<FeedEvent>) -> Option<Seq<PadFacts>>
    decreases events.len(),
{
    if events.len() == 0 {
        None
    } else {
        match events.last() {
            FeedEvent::Publish(pads) => Some(pads),
            FeedEvent::Open => last_published(events.drop_last()),
        }
    }
}

/// However often the feed is needed, the reading of the controllers is started at
/// most once, and exactly once where it is needed at all. The text is the empty
/// list until the controllers are first read, and then what was last read.
pub proof fn law_one_feed(events: Seq<FeedEvent>)
    ensures
        starts(events) <= 1,
        starts(events) == 1 <==> events.contains(FeedEvent::Open),
        feed_after(events).polled <==> events.contains(FeedEvent::Open),
        feed_after(events).text == (match last_published(events) {
            Some(pads) => snapshot_json(pads),
            None => "[]"@,
        }),
    decreases events.len(),
{
    if events.len() > 0 {
        let rest = events.drop_last();
        law_one_feed(rest);
        if rest.contains(FeedEvent::Open) {
            let k = choose|k: int| 0 <= k < rest.len() && rest[k] == FeedEvent::Open;
            assert(events[k] == FeedEvent::Open);
        }
        if events.last() is Open {
            assert(events[events.len() - 1] == FeedEvent::Open);
        }
        if events.contains(FeedEvent::Open) && !(events.last() is Open) {
            let k = choose|k: int| 0 <= k < events.len() && events[k] == FeedEvent::Open;
            assert(rest[k] == FeedEvent::Open);
        }
    }
}


/// Whatever a controller is called, its name is text that JSON takes between
/// quotes: it holds no quote, no backslash and no control character. A name that
/// held none of them is kept.
pub proof fn law_clean_name(name: Seq<char>)
    ensures
        !clean_name(name).contains('"'),
        !clean_name(name).contains('\\'),
        forall|k: int|
            0 <= k < clean_name(name).len() ==> #[trigger] clean_name(name)[k] as u32 >= 0x20,
        clean_name(name).len() == name.len(),
        forall|k: int|
            0 <= k < name.len() ==> #[trigger] clean_name(name)[k] == (if name[k] == '"' {
                '\''
            } else if name[k] == '\\' || (name[k] as u32) < 0x20 {
                ' '
            } else {
                name[k]
            }),
        (forall|k: int|
            0 <= k < name.len() ==> #[trigger] name[k] as u32 >= 0x20 && name[k] != '"' && name[k]
                != '\\') ==> clean_name(name) == name,
{
    if forall|k: int|
        0 <= k < name.len() ==> #[trigger] name[k] as u32 >= 0x20 && name[k] != '"' && name[k]
            != '\\' {
        assert(clean_name(name) =~= name);
    }
}

/// The state holds the controllers that are connected and no others, each under
/// its place among all of them.
pub proof fn law_connected_and_no_others(pads: Seq<PadFacts>, json: Seq<char>)
    ensures
        connected_json(pads).contains(json) <==> exists|i: int|
            0 <= i < pads.len() && (#[trigger] pads[i]).connected && json == pad_json(
                i as nat,
                pads[i],
            ),
    decreases pads.len(),
{
    if pads.len() > 0 {
        let rest = pads.drop_last();
        let last = pads.len() - 1;
        law_connected_and_no_others(rest, json);
        let before = connected_json(rest);
        let all = connected_json(pads);
        if before.contains(json) {
            let k = choose|k: int| 0 <= k < before.len() && before[k] == json;
            assert(all[k] == json);
            let i = choose|i: int|
                0 <= i < rest.len() && (#[trigger] rest[i]).connected && json == pad_json(
                    i as nat,
                    rest[i],
                );
            assert(pads[i].connected);
        }
        if pads[last].connected && json == pad_json(last as nat, pads[last]) {
            assert(all[all.len() - 1] == json);
        }
        if all.contains(json) {
            let k = choose|k: int| 0 <= k < all.len() && all[k] == json;
            if k < before.len() {
                assert(before[k] == json);
            } else {
                assert(pads[last].connected);
            }
        }
        if exists|i: int|
            0 <= i < pads.len() && (#[trigger] pads[i]).connected && json == pad_json(
                i as nat,
                pads[i],
            ) {
            let i = choose|i: int|
                0 <= i < pads.len() && (#[trigger] pads[i]).connected && json == pad_json(
                    i as nat,
                    pads[i],
                );
            if i < last {
                assert(rest[i].connected);
            }
        }
    }
}

/// Each button stands at its own number of the standard mapping.
pub proof fn law_button_numbers()
    ensures
        button_order().len() == 17,
        button_order()[0] == PadButton::South,
        button_order()[1] == PadButton::East,
        button_order()[2] == PadButton::West,
        button_order()[3] == PadButton::North,
        button_order()[4] == PadButton::LeftTrigger,
        button_order()[5] == PadButton::RightTrigger,
        button_order()[6] == PadButton::LeftTrigger2,
        button_order()[7] == PadButton::RightTrigger2,
        button_order()[8] == PadButton::Select,
        button_order()[9] == PadButton::Start,
        button_order()[10] == PadButton::LeftThumb,
        button_order()[11] == PadButton::RightThumb,
        button_order()[12] == PadButton::DPadUp,
        button_order()[13] == PadButton::DPadDown,
        button_order()[14] == PadButton::DPadLeft,
        button_order()[15] == PadButton::DPadRight,
        button_order()[16] == PadButton::Mode,
{
}

/// A controller is written with its number, its clean name, the state of each button
/// of the standard mapping at the button's own number, and the four axes, of which
/// the vertical ones are turned.
pub proof fn law_pad_json(index: nat, pad: PadFacts, buttons: Seq<Seq<char>>)
    requires
        buttons.len() == 17,
        forall|k: int|
            0 <= k < 17 ==> #[trigger] buttons[k] == button_json(pad, button_order()[k]),
    ensures
        pad_json(index, pad) == "{\"index\":"@ + decimal(index) + ",\"id\":\""@ + clean_name(pad.name)
            + "\",\"mapping\":\"standard\",\"connected\":true,\"buttons\":["@ + joined(
            buttons,
            ","@,
        ) + "],\"axes\":["@ + joined(
            seq![
                axis_value(pad, PadAxis::LeftStickX),
                negated(axis_value(pad, PadAxis::LeftStickY)),
                axis_value(pad, PadAxis::RightStickX),
                negated(axis_value(pad, PadAxis::RightStickY)),
            ],
            ","@,
        ) + "]}"@,
{
    assert(buttons =~= button_order().map_values(|b: PadButton| button_json(pad, b)));
}

/// A button is pressed and touched exactly where it is among those held down. It has
/// the value that is listed first for it, and without one that of a button held down
/// all the way or not at all.
pub proof fn law_button_json(pad: PadFacts, button: PadButton, i: int)
    requires
        0 <= i <= pad.values.len(),
        forall|k: int| 0 <= k < i ==> (#[trigger] pad.values[k]).0 != button,
        i < pad.values.len() ==> pad.values[i].0 == button,
    ensures
        ({
            let value = if i < pad.values.len() {
                pad.values[i].1
            } else if pad.pressed.contains(button) {
                "1.000"@
            } else {
                "0.000"@
            };
            button_json(pad, button) == (if pad.pressed.contains(button) {
                "{\"pressed\":"@ + "true"@ + ",\"touched\":"@ + "true"@ + ",\"value\":"@ + value
                    + "}"@
            } else {
                "{\"pressed\":"@ + "false"@ + ",\"touched\":"@ + "false"@ + ",\"value\":"@ + value
                    + "}"@
            })
        }),
{
    lemma_first(pad.values, keyed(button), i);
}

/// An axis stands where it is listed first, and at rest where it is not listed.
pub proof fn law_axis_value(pad: PadFacts, axis: PadAxis, i: int)
    requires
        0 <= i <= pad.axes.len(),
        forall|k: int| 0 <= k < i ==> (#[trigger] pad.axes[k]).0 != axis,
        i < pad.axes.len() ==> pad.axes[i].0 == axis,
    ensures
        axis_value(pad, axis) == (if i < pad.axes.len() {
            pad.axes[i].1
        } else {
            "0.000"@
        }),
{
    lemma_first(pad.axes, keyed(axis), i);
}

/// The sign of a number is turned: one without a minus gets it, one with a minus
/// loses it, and turned twice a number is itself. What is no number stays.
pub proof fn law_negated(v: Seq<char>)
    requires
        v.len() > 0,
        v[0] != '-',
    ensures
        v != "NaN"@ ==> negated(v) == "-"@ + v && negated(negated(v)) == v,
        v == "NaN"@ ==> negated(v) == v,
{
    reveal_strlit("-");
    assert(("-"@ + v).drop_first() =~= v);
}

/// The state is the list of the controllers that are connected, in order, each under
/// its place among all of them.
pub proof fn law_snapshot(pads: Seq<PadFacts>, pad: PadFacts)
    ensures
        snapshot_json(pads) == "["@ + joined(connected_json(pads), ","@) + "]"@,
        connected_json(Seq::empty()) == Seq::<Seq<char>>::empty(),
        connected_json(pads.push(pad)) == (if pad.connected {
            connected_json(pads).push(pad_json(pads.len(), pad))
        } else {
            connected_json(pads)
        }),
{
    assert(pads.push(pad).drop_last() =~= pads);
}

/// A controller says what was read of it, and without any there is an empty list.
pub proof fn law_readings_as_given(pad: PadReading, pads: Seq<PadReading>)
    ensures
        pad@.name == pad.name@,
        pad@.connected == pad.connected,
        pad@.pressed == pad.pressed@,
        pad@.values.len() == pad.values@.len(),
        forall|k: int|
            0 <= k < pad.values@.len() ==> #[trigger] pad@.values[k] == (
                pad.values@[k].0,
                pad.values@[k].1@,
            ),
        pad@.axes.len() == pad.axes@.len(),
        forall|k: int|
            0 <= k < pad.axes@.len() ==> #[trigger] pad@.axes[k] == (
                pad.axes@[k].0,
                pad.axes@[k].1@,
            ),
        pad_facts(pads).len() == pads.len(),
        forall|k: int| 0 <= k < pads.len() ==> #[trigger] pad_facts(pads)[k] == pads[k]@,
        snapshot_json(Seq::empty()) == "[]"@,
{
    reveal_strlit("[");
    reveal_strlit("]");
    reveal_strlit("[]");
    assert(snapshot_json(Seq::empty()) =~= "[]"@);
}

} // verus!
