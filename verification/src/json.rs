//! JSON documents as the library reads them.

use crate::search::{first, lemma_first};
use crate::text::same_text;
use vstd::prelude::*;

verus! {

/// A JSON document. Of a number only its value as an unsigned integer is kept,
/// where it has one.
pub enum Json {
    Null,
    Flag(bool),
    Number(Option<u64>),
    Text(String),
    List(Vec<Json>),
    Record(Vec<(String, Json)>),
}

/// What a document says.
#[verifier::ext_equal]
pub enum JsonTree {
    Null,
    Flag(bool),
    Number(Option<u64>),
    Text(Seq<char>),
    List(Seq<JsonTree>),
    Record(Seq<(Seq<char>, JsonTree)>),
}

impl Json {
    pub open spec fn tree(self) -> JsonTree
        decreases self,
    {
        match self {
            Json::Null => JsonTree::Null,
            Json::Flag(b) => JsonTree::Flag(b),
            Json::Number(n) => JsonTree::Number(n),
            Json::Text(s) => JsonTree::Text(s@),
            Json::List(items) => JsonTree::List(
                Seq::new(
                    items@.len(),
                    |i: int|
                        if 0 <= i < items@.len() {
                            items@[i].tree()
                        } else {
                            JsonTree::Null
                        },
                ),
            ),
            Json::Record(members) => JsonTree::Record(
                Seq::new(
                    members@.len(),
                    |i: int|
                        if 0 <= i < members@.len() {
                            (members@[i].0@, members@[i].1.tree())
                        } else {
                            (Seq::empty(), JsonTree::Null)
                        },
                ),
            ),
        }
    }
}

impl View for Json {
    type V = JsonTree;

    open spec fn view(&self) -> JsonTree {
        self.tree()
    }
}

impl JsonTree {
    /// The member has that name.
    pub open spec fn named(name: Seq<char>) -> spec_fn((Seq<char>, JsonTree)) -> bool {
        |member: (Seq<char>, JsonTree)| member.0 == name
    }

    /// The member of that name; null where the document is no record or has no such member.
    pub open spec fn member(self, name: Seq<char>) -> JsonTree {
        match self {
            JsonTree::Record(members) => match first(members, JsonTree::named(name)) {
                Some(member) => member.1,
                None => JsonTree::Null,
            },
            _ => JsonTree::Null,
        }
    }

    pub open spec fn text(self) -> Option<Seq<char>> {
        match self {
            JsonTree::Text(s) => Some(s),
            _ => None,
        }
    }

    pub open spec fn flag(self) -> Option<bool> {
        match self {
            JsonTree::Flag(b) => Some(b),
            _ => None,
        }
    }

    pub open spec fn number(self) -> Option<u64> {
        match self {
            JsonTree::Number(n) => n,
            _ => None,
        }
    }

    pub open spec fn list(self) -> Option<Seq<JsonTree>> {
        match self {
            JsonTree::List(items) => Some(items),
            _ => None,
        }
    }
}

// ---- Reading JSON text -----------------------------------------------------------

/// A value as `serde_json` holds it.
#[verifier::external_type_specification]
#[verifier::external_body]
pub struct ExValue(serde_json::Value);

/// The error of a text that is no JSON.
#[verifier::external_type_specification]
#[verifier::external_body]
pub struct ExJsonError(serde_json::Error);

/// What a `serde_json::Value` holds.
pub uninterp spec fn held_by(value: serde_json::Value) -> JsonTree;

/// The document that bytes of JSON text describe; nothing where they are refused.
pub uninterp spec fn document_in(body: Seq<u8>) -> Option<JsonTree>;

/// One level of a `serde_json::Value`.
pub enum Level<'a> {
    Null,
    Flag(bool),
    Number(Option<u64>),
    Text(&'a String),
    List(&'a Vec<serde_json::Value>),
    Record(Vec<(&'a String, &'a serde_json::Value)>),
}

impl<'a> Level<'a> {
    pub open spec fn tree(self) -> JsonTree {
        match self {
            Level::Null => JsonTree::Null,
            Level::Flag(b) => JsonTree::Flag(b),
            Level::Number(n) => JsonTree::Number(n),
            Level::Text(s) => JsonTree::Text(s@),
            Level::List(items) => JsonTree::List(
                items@.map_values(|v: serde_json::Value| held_by(v)),
            ),
            Level::Record(members) => JsonTree::Record(
                members@.map_values(
                    |m: (&String, &serde_json::Value)| (m.0@, held_by(*m.1)),
                ),
            ),
        }
    }
}

/// `serde_json::from_slice` into a `serde_json::Value`: whether it succeeds, and
/// what the value then holds, goes by the bytes alone. Which bytes it takes is left
/// unsaid; it refuses what is no JSON text, and a text that is nested too deeply.
#[verifier::external_body]
fn value_from_slice(body: &[u8]) -> (value: Result<serde_json::Value, serde_json::Error>)
    ensures
        value is Ok <==> document_in(body@) is Some,
        value matches Ok(v) ==> document_in(body@) == Some(held_by(v)),
{
    serde_json::from_slice::<serde_json::Value>(body)
}

/// The variants of `serde_json::Value` told apart, with `serde_json::Number::as_u64`
/// for a number and the entries of a `serde_json::Map` in its own order: the
/// level shows what the value holds.
#[verifier::external_body]
fn level_of<'a>(value: &'a serde_json::Value) -> (level: Level<'a>)
    ensures
        level.tree() == held_by(*value),
{
    match value {
        serde_json::Value::Null => Level::Null,
        serde_json::Value::Bool(b) => Level::Flag(*b),
        serde_json::Value::Number(n) => Level::Number(n.as_u64()),
        serde_json::Value::String(s) => Level::Text(s),
        serde_json::Value::Array(items) => Level::List(items),
        serde_json::Value::Object(members) => Level::Record(members.iter().collect()),
    }
}

/// The document that a value holds.
fn json_of(value: &serde_json::Value) -> (json: Json)
    ensures
        json@ == held_by(*value),
    decreases held_by(*value),
{
    match level_of(value) {
        Level::Null => Json::Null,
        Level::Flag(b) => Json::Flag(b),
        Level::Number(n) => Json::Number(n),
        Level::Text(s) => Json::Text(s.clone()),
        Level::List(items) => {
            let mut out: Vec<Json> = Vec::new();
            let mut i: usize = 0;
            while i < items.len()
                invariant
                    i <= items.len(),
                    out@.len() == i,
                    held_by(*value) == JsonTree::List(
                        items@.map_values(|v: serde_json::Value| held_by(v)),
                    ),
                    forall|k: int| 0 <= k < i ==> (#[trigger] out@[k])@ == held_by(items@[k]),
                decreases items.len() - i,
            {
                proof {
                    let trees = items@.map_values(|v: serde_json::Value| held_by(v));
                    assert(trees[i as int] == held_by(items@[i as int]));
                    assert(decreases_to!(held_by(*value) => held_by(*value)->List_0));
                    assert(decreases_to!(trees => trees[i as int]));
                }
                out.push(json_of(&items[i]));
                i += 1;
            }
            proof {
                assert(Json::List(out)@->List_0 =~= held_by(*value)->List_0);
            }
            Json::List(out)
        },
        Level::Record(members) => {
            let mut out: Vec<(String, Json)> = Vec::new();
            let mut i: usize = 0;
            while i < members.len()
                invariant
                    i <= members.len(),
                    out@.len() == i,
                    held_by(*value) == JsonTree::Record(
                        members@.map_values(
                            |m: (&String, &serde_json::Value)| (m.0@, held_by(*m.1)),
                        ),
                    ),
                    forall|k: int|
                        0 <= k < i ==> (#[trigger] out@[k]).0@ == members@[k].0@ && out@[k].1@
                            == held_by(*members@[k].1),
                decreases members.len() - i,
            {
                proof {
                    let trees = members@.map_values(
                        |m: (&String, &serde_json::Value)| (m.0@, held_by(*m.1)),
                    );
                    assert(trees[i as int].1 == held_by(*members@[i as int].1));
                    assert(decreases_to!(held_by(*value) => held_by(*value)->Record_0));
                    assert(decreases_to!(trees => trees[i as int]));
                    assert(decreases_to!(trees[i as int] => trees[i as int].1));
                }
                let (name, inner) = members[i];
                out.push((name.clone(), json_of(inner)));
                i += 1;
            }
            proof {
                assert(Json::Record(out)@->Record_0 =~= held_by(*value)->Record_0);
            }
            Json::Record(out)
        },
    }
}

/// The document in a body of JSON text.
pub fn parse(body: &[u8]) -> (json: Option<Json>)
    ensures
        json is Some <==> document_in(body@) is Some,
        json matches Some(j) ==> document_in(body@) == Some(j@),
{
    match value_from_slice(body) {
        Ok(value) => Some(json_of(&value)),
        Err(_) => None,
    }
}

// ---- Reading a document -------------------------------------------------------------

impl Json {
    /// The member of that name, where the document is a record that has one.
    pub(crate) fn member(&self, name: &str) -> (found: Option<&Json>)
        ensures
            found matches Some(j) ==> self@.member(name@) == j@,
            found is None ==> self@.member(name@) == JsonTree::Null,
    {
        match self {
            Json::Record(members) => {
                let ghost trees = self@->Record_0;
                let mut i: usize = 0;
                while i < members.len()
                    invariant
                        i <= members.len(),
                        *self == Json::Record(*members),
                        trees == self@->Record_0,
                        forall|k: int| 0 <= k < i ==> (#[trigger] trees[k]).0 != name@,
                    decreases members.len() - i,
                {
                    proof {
                        assert(trees[i as int] == (members@[i as int].0@, members@[i as int].1@));
                    }
                    if same_text(members[i].0.as_str(), name) {
                        proof {
                            lemma_first(trees, JsonTree::named(name@), i as int);
                        }
                        return Some(&members[i].1);
                    }
                    i += 1;
                }
                proof {
                    lemma_first(trees, JsonTree::named(name@), i as int);
                }
                None
            },
            _ => None,
        }
    }

    /// The text that the member of that name is; nothing where it is no text.
    pub fn text_at(&self, name: &str) -> (text: Option<&String>)
        ensures
            text is Some <==> self@.member(name@).text() is Some,
            text matches Some(t) ==> self@.member(name@).text() == Some(t@),
    {
        match self.member(name) {
            Some(Json::Text(s)) => Some(s),
            _ => None,
        }
    }

    /// The truth value that the member of that name is; nothing where it is none.
    pub fn flag_at(&self, name: &str) -> (flag: Option<bool>)
        ensures
            flag == self@.member(name@).flag(),
    {
        match self.member(name) {
            Some(Json::Flag(b)) => Some(*b),
            _ => None,
        }
    }

    /// The unsigned integer that the member of that name is; nothing where it is none.
    pub fn number_at(&self, name: &str) -> (number: Option<u64>)
        ensures
            number == self@.member(name@).number(),
    {
        match self.member(name) {
            Some(Json::Number(n)) => *n,
            _ => None,
        }
    }

    /// The items of the member of that name; nothing where it is no list.
    pub fn list_at(&self, name: &str) -> (items: Option<&Vec<Json>>)
        ensures
            items is Some <==> self@.member(name@).list() is Some,
            items matches Some(v) ==> self@.member(name@).list()->0.len() == v@.len() && forall|
                i: int,
            |
                0 <= i < v@.len() ==> #[trigger] self@.member(name@).list()->0[i] == v@[i]@,
    {
        match self.member(name) {
            Some(Json::List(items)) => Some(items),
            _ => None,
        }
    }

    /// A copy of the document.
    pub fn duplicate(&self) -> (copy: Json)
        ensures
            copy@ == self@,
        decreases self,
    {
        match self {
            Json::Null => Json::Null,
            Json::Flag(b) => Json::Flag(*b),
            Json::Number(n) => Json::Number(*n),
            Json::Text(s) => Json::Text(s.clone()),
            Json::List(items) => {
                let mut out: Vec<Json> = Vec::new();
                let mut i: usize = 0;
                while i < items.len()
                    invariant
                        i <= items.len(),
                        out@.len() == i,
                        *self == Json::List(*items),
                        forall|k: int| 0 <= k < i ==> (#[trigger] out@[k])@ == items@[k]@,
                    decreases items.len() - i,
                {
                    proof {
                        assert(decreases_to!(*self => self->List_0));
                        assert(decreases_to!(items@ => items@[i as int]));
                    }
                    out.push(items[i].duplicate());
                    i += 1;
                }
                proof {
                    assert(Json::List(out)@->List_0 =~= self@->List_0);
                }
                Json::List(out)
            },
            Json::Record(members) => {
                let mut out: Vec<(String, Json)> = Vec::new();
                let mut i: usize = 0;
                while i < members.len()
                    invariant
                        i <= members.len(),
                        out@.len() == i,
                        *self == Json::Record(*members),
                        forall|k: int|
                            0 <= k < i ==> (#[trigger] out@[k]).0@ == members@[k].0@
                                && out@[k].1@ == members@[k].1@,
                    decreases members.len() - i,
                {
                    proof {
                        assert(decreases_to!(*self => self->Record_0));
                        assert(decreases_to!(members@ => members@[i as int]));
                        assert(decreases_to!(members@[i as int] => members@[i as int].1));
                    }
                    out.push((members[i].0.clone(), members[i].1.duplicate()));
                    i += 1;
                }
                proof {
                    assert(Json::Record(out)@->Record_0 =~= self@->Record_0);
                }
                Json::Record(out)
            },
        }
    }
}

// ---- Laws ------------------------------------------------------------------------------------

/// The member of a name is the value that stands first under that name; there is
/// none where no name is that one, nor in what is no record.
pub proof fn law_member(
    members: Seq<(Seq<char>, JsonTree)>,
    name: Seq<char>,
    i: int,
    other: JsonTree,
)
    requires
        0 <= i <= members.len(),
        forall|k: int| 0 <= k < i ==> (#[trigger] members[k]).0 != name,
        i < members.len() ==> members[i].0 == name,
        !(other is Record),
    ensures
        JsonTree::Record(members).member(name) == (if i < members.len() {
            members[i].1
        } else {
            JsonTree::Null
        }),
        other.member(name) == JsonTree::Null,
{
    lemma_first(members, JsonTree::named(name), i);
}

/// A document is read as text, truth value, number or list exactly where it is one,
/// and then as that one.
pub proof fn law_readings(tree: JsonTree)
    ensures
        match tree.text() {
            Some(s) => tree == JsonTree::Text(s),
            None => !(tree is Text),
        },
        match tree.flag() {
            Some(b) => tree == JsonTree::Flag(b),
            None => !(tree is Flag),
        },
        match tree.number() {
            Some(n) => tree == JsonTree::Number(Some(n)),
            None => !(tree matches JsonTree::Number(Some(_))),
        },
        match tree.list() {
            Some(items) => tree == JsonTree::List(items),
            None => !(tree is List),
        },
{
}

/// A document says what it is made of.
pub proof fn law_documents(
    flag: bool,
    number: Option<u64>,
    text: String,
    items: Vec<Json>,
    members: Vec<(String, Json)>,
)
    ensures
        Json::Null@ == JsonTree::Null,
        Json::Flag(flag)@ == JsonTree::Flag(flag),
        Json::Number(number)@ == JsonTree::Number(number),
        Json::Text(text)@ == JsonTree::Text(text@),
        Json::List(items)@ matches JsonTree::List(trees) && trees.len() == items@.len() && forall|
            k: int,
        |
            0 <= k < trees.len() ==> #[trigger] trees[k] == items@[k]@,
        Json::Record(members)@ matches JsonTree::Record(trees) && trees.len() == members@.len()
            && forall|k: int|
            0 <= k < trees.len() ==> #[trigger] trees[k] == (members@[k].0@, members@[k].1@),
{
}

} // verus!
