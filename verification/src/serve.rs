//! What a request to a game's local server is answered. A request names a file
//! below the game's folder, or one of two names that the launcher keeps for
//! itself: the controllers' state, and the way back to the library.

use crate::platform::Platform;
use crate::text::{
    chars_of, joined, law_pieces, law_pieces_of_joined, law_without_leading, lemma_pieces_after,
    lemma_pieces_nonempty, lemma_pieces_plain, pieces, same_text, split, texts, trim_start_matches,
    without_leading,
};
use vstd::prelude::*;

verus! {

/// What a request is answered.
#[derive(Clone, Copy, Debug, PartialEq, Eq)]
pub enum Answer {
    /// The controllers' state.
    Pads,
    /// A farewell, before the launcher starts again.
    Quit,
    NotFound,
    ReadError,
    /// The file that was read, as content of this type.
    File(&'static str),
}

pub enum AnswerFacts {
    Pads,
    Quit,
    NotFound,
    ReadError,
    File(Seq<char>),
}

impl View for Answer {
    type V = AnswerFacts;

    open spec fn view(&self) -> AnswerFacts {
        match *self {
            Answer::Pads => AnswerFacts::Pads,
            Answer::Quit => AnswerFacts::Quit,
            Answer::NotFound => AnswerFacts::NotFound,
            Answer::ReadError => AnswerFacts::ReadError,
            Answer::File(content) => AnswerFacts::File(content@),
        }
    }
}

/// How far a request has come. A file is given by its parts, below the game's folder.
pub enum Request {
    /// It is to be seen whether this is a file.
    Probe(Vec<String>),
    /// This file is to be read.
    Read(Vec<String>),
    /// This is to be answered.
    Done(Answer),
}

#[verifier::ext_equal]
pub enum RequestFacts {
    Probe(Seq<Seq<char>>),
    Read(Seq<Seq<char>>),
    Done(AnswerFacts),
}

impl View for Request {
    type V = RequestFacts;

    open spec fn view(&self) -> RequestFacts {
        match *self {
            Request::Probe(parts) => RequestFacts::Probe(texts(parts@)),
            Request::Read(parts) => RequestFacts::Read(texts(parts@)),
            Request::Done(answer) => RequestFacts::Done(answer@),
        }
    }
}

/// What came of it.
#[derive(Clone, Copy, Debug, PartialEq, Eq)]
pub enum FileReply {
    /// Whether it is a file.
    IsFile(bool),
    /// It was read.
    Data,
    /// It could not be read.
    Failed,
}

// ---- What requests mean ----------------------------------------------------------------

/// What an address asks for: what comes before the query, without leading slashes.
pub open spec fn asked(url: Seq<char>) -> Seq<char> {
    without_leading(pieces(url, '?')[0], '/')
}

/// The part begins with the name of a drive: a letter and a colon.
pub open spec fn names_drive(part: Seq<char>) -> bool {
    part.len() >= 2 && part[1] == ':' && ('a' <= part[0] <= 'z' || 'A' <= part[0] <= 'Z')
}

/// A part that leads out of the folder, or that not every system takes for one
/// part. On Windows a path starts anew from a drive.
pub open spec fn stray(part: Seq<char>, platform: Platform) -> bool {
    ||| part == ".."@
    ||| part.contains('\\')
    ||| platform == Platform::Windows && names_drive(part)
}

/// The parts that are not empty.
pub open spec fn solid(parts: Seq<Seq<char>>) -> Seq<Seq<char>> {
    parts.filter(|part: Seq<char>| part.len() > 0)
}

/// The parts of a file that is asked for by `path`; nothing where one of them is stray.
pub open spec fn file_parts(path: Seq<char>, platform: Platform) -> Option<Seq<Seq<char>>> {
    let parts = pieces(path, '/');
    if exists|i: int| 0 <= i < parts.len() && stray(#[trigger] parts[i], platform) {
        None
    } else {
        Some(solid(parts))
    }
}

/// How a request for an address starts.
pub open spec fn request_for(url: Seq<char>, platform: Platform) -> RequestFacts {
    let path = asked(url);
    if path == "__gamepad"@ {
        RequestFacts::Done(AnswerFacts::Pads)
    } else if path == "__quit"@ {
        RequestFacts::Done(AnswerFacts::Quit)
    } else {
        match file_parts(
            if path.len() == 0 {
                "index.html"@
            } else {
                path
            },
            platform,
        ) {
            Some(parts) => RequestFacts::Probe(parts),
            None => RequestFacts::Done(AnswerFacts::NotFound),
        }
    }
}

/// The extension of a file's name: what comes after its last dot, where that dot
/// is not also its first character.
pub open spec fn extension_of(name: Seq<char>) -> Option<Seq<char>> {
    let parts = pieces(name, '.');
    if name == ".."@ || parts.len() == 1 || (parts.len() == 2 && parts[0].len() == 0) {
        None
    } else {
        Some(parts.last())
    }
}

/// The name of the file that the parts lead to: the last of them that is not
/// the folder itself.
pub open spec fn file_name(parts: Seq<Seq<char>>) -> Option<Seq<char>>
    decreases parts.len(),
{
    if parts.len() == 0 {
        None
    } else if parts.last() == "."@ {
        file_name(parts.drop_last())
    } else {
        Some(parts.last())
    }
}

/// The type of content that an extension stands for.
pub open spec fn type_of(extension: Option<Seq<char>>) -> Seq<char> {
    match extension {
        None => "application/octet-stream"@,
        Some(e) => if e == "html"@ {
            "text/html; charset=utf-8"@
        } else if e == "js"@ {
            "text/javascript; charset=utf-8"@
        } else if e == "css"@ {
            "text/css; charset=utf-8"@
        } else if e == "json"@ {
            "application/json; charset=utf-8"@
        } else if e == "png"@ {
            "image/png"@
        } else if e == "jpg"@ || e == "jpeg"@ {
            "image/jpeg"@
        } else if e == "gif"@ {
            "image/gif"@
        } else if e == "svg"@ {
            "image/svg+xml"@
        } else if e == "wav"@ {
            "audio/wav"@
        } else if e == "mp3"@ {
            "audio/mpeg"@
        } else if e == "ogg"@ {
            "audio/ogg"@
        } else if e == "woff2"@ {
            "font/woff2"@
        } else {
            "application/octet-stream"@
        },
    }
}

/// The type of content of the file that the parts lead to.
pub open spec fn type_at(parts: Seq<Seq<char>>) -> Seq<char> {
    type_of(
        match file_name(parts) {
            Some(name) => extension_of(name),
            None => None,
        },
    )
}

impl RequestFacts {
    /// The request once `reply` has come. A reply that does not belong to what
    /// was to be done changes nothing.
    pub open spec fn after(self, reply: FileReply) -> RequestFacts {
        match (self, reply) {
            (RequestFacts::Probe(parts), FileReply::IsFile(yes)) => if yes {
                RequestFacts::Read(parts)
            } else {
                RequestFacts::Done(AnswerFacts::NotFound)
            },
            (RequestFacts::Read(parts), FileReply::Data) => RequestFacts::Done(
                AnswerFacts::File(type_at(parts)),
            ),
            (RequestFacts::Read(_), FileReply::Failed) => RequestFacts::Done(
                AnswerFacts::ReadError,
            ),
            _ => self,
        }
    }
}

impl AnswerFacts {
    /// The status of the answer.
    pub open spec fn status(self) -> u16 {
        match self {
            AnswerFacts::NotFound => 404,
            AnswerFacts::ReadError => 500,
            _ => 200,
        }
    }

    /// The type of content that the answer names.
    pub open spec fn content_type(self) -> Option<Seq<char>> {
        match self {
            AnswerFacts::Pads => Some("application/json"@),
            AnswerFacts::File(content) => Some(content),
            _ => None,
        }
    }

    /// The answer's own text; nothing where it hands on the controllers' state or a file.
    pub open spec fn text(self) -> Option<Seq<char>> {
        match self {
            AnswerFacts::Quit => Some("bye"@),
            AnswerFacts::NotFound => Some("Not found"@),
            AnswerFacts::ReadError => Some("Read error"@),
            _ => None,
        }
    }
}

// ---- Answering requests ----------------------------------------------------------------

/// Whether a part leads out of the folder, or is not one part on every system.
fn is_stray(part: &str, platform: Platform) -> (yes: bool)
    ensures
        yes == stray(part@, platform),
{
    if same_text(part, "..") {
        return true;
    }
    let chars = chars_of(part);
    match platform {
        Platform::Windows => {
            if chars.len() >= 2 && chars[1] == ':' && (('a' <= chars[0] && chars[0] <= 'z') || (
            'A' <= chars[0] && chars[0] <= 'Z')) {
                return true;
            }
        },
        _ => {},
    }
    let mut i: usize = 0;
    while i < chars.len()
        invariant
            i <= chars.len(),
            chars@ == part@,
            forall|k: int| 0 <= k < i ==> chars@[k] != '\\',
        decreases chars.len() - i,
    {
        if chars[i] == '\\' {
            assert(part@[i as int] == '\\');
            return true;
        }
        i += 1;
    }
    false
}

/// The parts of a file that is asked for by `path`; nothing where one of them is stray.
fn safe_parts(path: &str, platform: Platform) -> (parts: Option<Vec<String>>)
    ensures
        (match parts {
            Some(p) => Some(texts(p@)),
            None => None,
        }) == file_parts(path@, platform),
{
    let all = split(path, '/');
    let ghost cut = pieces(path@, '/');
    let ghost pred = |part: Seq<char>| part.len() > 0;
    let mut out: Vec<String> = Vec::new();
    let mut i: usize = 0;
    proof {
        reveal_with_fuel(Seq::filter, 1);
        assert(texts(out@) =~= cut.take(0).filter(pred));
    }
    while i < all.len()
        invariant
            i <= all.len(),
            cut == pieces(path@, '/'),
            texts(all@) == cut,
            pred == (|part: Seq<char>| part.len() > 0),
            forall|k: int| 0 <= k < i ==> !stray(#[trigger] cut[k], platform),
            texts(out@) == cut.take(i as int).filter(pred),
        decreases all.len() - i,
    {
        proof {
            reveal_with_fuel(Seq::filter, 1);
            assert(texts(all@)[i as int] == all@[i as int]@);
            assert(cut.take(i + 1).drop_last() =~= cut.take(i as int));
            assert(cut.take(i + 1).last() == cut[i as int]);
        }
        if is_stray(all[i].as_str(), platform) {
            assert(stray(cut[i as int], platform));
            return None;
        }
        if !all[i].as_str().is_empty() {
            let ghost before = out@;
            out.push(all[i].clone());
            assert(texts(out@) =~= texts(before).push(cut[i as int]));
        }
        i += 1;
    }
    proof {
        assert(texts(all@).len() == all@.len());
        assert(cut.take(i as int) =~= cut);
    }
    Some(out)
}

/// Starts the answering of a request for an address.
pub fn route(url: &str, platform: Platform) -> (request: Request)
    ensures
        request@ == request_for(url@, platform),
{
    let cut = split(url, '?');
    proof {
        assert(texts(cut@)[0] == cut@[0]@);
    }
    let path = trim_start_matches(cut[0].as_str(), '/');
    if same_text(path.as_str(), "__gamepad") {
        return Request::Done(Answer::Pads);
    }
    if same_text(path.as_str(), "__quit") {
        return Request::Done(Answer::Quit);
    }
    let parts = if path.as_str().is_empty() {
        safe_parts("index.html", platform)
    } else {
        safe_parts(path.as_str(), platform)
    };
    match parts {
        Some(parts) => Request::Probe(parts),
        None => Request::Done(Answer::NotFound),
    }
}

/// The extension of a file's name.
fn extension(name: &str) -> (ext: Option<String>)
    ensures
        (match ext {
            Some(e) => Some(e@),
            None => None,
        }) == extension_of(name@),
{
    let mut parts = split(name, '.');
    proof {
        assert(texts(parts@).len() == parts@.len());
        assert(texts(parts@)[0] == parts@[0]@);
        assert(texts(parts@).last() == parts@.last()@);
    }
    if same_text(name, "..") || parts.len() == 1 || (parts.len() == 2
        && parts[0].as_str().is_empty()) {
        None
    } else {
        parts.pop()
    }
}

/// The type of content that an extension stands for.
fn content_type_of(ext: &str) -> (content: &'static str)
    ensures
        content@ == type_of(Some(ext@)),
{
    if same_text(ext, "html") {
        "text/html; charset=utf-8"
    } else if same_text(ext, "js") {
        "text/javascript; charset=utf-8"
    } else if same_text(ext, "css") {
        "text/css; charset=utf-8"
    } else if same_text(ext, "json") {
        "application/json; charset=utf-8"
    } else if same_text(ext, "png") {
        "image/png"
    } else if same_text(ext, "jpg") || same_text(ext, "jpeg") {
        "image/jpeg"
    } else if same_text(ext, "gif") {
        "image/gif"
    } else if same_text(ext, "svg") {
        "image/svg+xml"
    } else if same_text(ext, "wav") {
        "audio/wav"
    } else if same_text(ext, "mp3") {
        "audio/mpeg"
    } else if same_text(ext, "ogg") {
        "audio/ogg"
    } else if same_text(ext, "woff2") {
        "font/woff2"
    } else {
        "application/octet-stream"
    }
}

/// The type of content of the file that the parts lead to.
pub fn content_type(parts: &Vec<String>) -> (content: &'static str)
    ensures
        content@ == type_at(texts(parts@)),
{
    let ghost all = texts(parts@);
    let mut n: usize = parts.len();
    proof {
        assert(all.take(n as int) =~= all);
    }
    while n > 0
        invariant
            n <= parts.len(),
            all == texts(parts@),
            file_name(all) == file_name(all.take(n as int)),
        decreases n,
    {
        proof {
            assert(all.take(n as int).last() == parts@[n - 1]@);
            assert(all.take(n as int).drop_last() =~= all.take(n - 1));
        }
        if !same_text(parts[n - 1].as_str(), ".") {
            return match extension(parts[n - 1].as_str()) {
                Some(ext) => content_type_of(ext.as_str()),
                None => "application/octet-stream",
            };
        }
        n -= 1;
    }
    "application/octet-stream"
}

impl Request {
    /// The request once `reply` has come.
    pub fn next(self, reply: FileReply) -> (request: Request)
        ensures
            request@ == self@.after(reply),
    {
        match (self, reply) {
            (Request::Probe(parts), FileReply::IsFile(yes)) => {
                if yes {
                    Request::Read(parts)
                } else {
                    Request::Done(Answer::NotFound)
                }
            },
            (Request::Read(parts), FileReply::Data) => Request::Done(
                Answer::File(content_type(&parts)),
            ),
            (Request::Read(_), FileReply::Failed) => Request::Done(Answer::ReadError),
            (request, _) => request,
        }
    }
}

impl Answer {
    /// The status of the answer.
    pub fn status(&self) -> (status: u16)
        ensures
            status == self@.status(),
    {
        match self {
            Answer::NotFound => 404,
            Answer::ReadError => 500,
            _ => 200,
        }
    }

    /// The type of content that the answer names.
    pub fn content_type(&self) -> (content: Option<&'static str>)
        ensures
            (match content {
                Some(c) => Some(c@),
                None => None,
            }) == self@.content_type(),
    {
        match self {
            Answer::Pads => Some("application/json"),
            Answer::File(content) => Some(*content),
            _ => None,
        }
    }

    /// Whether the launcher starts again once the answer is given.
    pub fn restarts(&self) -> (yes: bool)
        ensures
            yes == (self@ is Quit),
    {
        match self {
            Answer::Quit => true,
            _ => false,
        }
    }

    /// The answer's own text; nothing where it hands on the controllers' state or a file.
    pub fn text(&self) -> (text: Option<&'static str>)
        ensures
            (match text {
                Some(t) => Some(t@),
                None => None,
            }) == self@.text(),
    {
        match self {
            Answer::Quit => Some("bye"),
            Answer::NotFound => Some("Not found"),
            Answer::ReadError => Some("Read error"),
            _ => None,
        }
    }
}

// ---- Laws ------------------------------------------------------------------------------------

proof fn lemma_solid(parts: Seq<Seq<char>>)
    ensures
        forall|i: int|
            0 <= i < solid(parts).len() ==> (#[trigger] solid(parts)[i]).len() > 0
                && parts.contains(solid(parts)[i]),
    decreases parts.len(),
{
    reveal_with_fuel(Seq::filter, 1);
    if parts.len() > 0 {
        let rest = parts.drop_last();
        lemma_solid(rest);
        assert forall|i: int| 0 <= i < solid(parts).len() implies (#[trigger] solid(
            parts,
        )[i]).len() > 0 && parts.contains(solid(parts)[i]) by {
            if i < solid(rest).len() {
                assert(solid(parts)[i] == solid(rest)[i]);
                let k = choose|k: int| 0 <= k < rest.len() && rest[k] == solid(rest)[i];
                assert(parts[k] == solid(parts)[i]);
            } else {
                assert(parts[parts.len() - 1] == solid(parts)[i]);
            }
        }
    }
}

/// What a request can have looked at or read.
pub open spec fn touched(request: RequestFacts) -> Option<Seq<Seq<char>>> {
    match request {
        RequestFacts::Probe(parts) => Some(parts),
        RequestFacts::Read(parts) => Some(parts),
        RequestFacts::Done(_) => None,
    }
}

/// A part that stays where it is put: it is not empty, does not lead upwards,
/// holds no separator and names no drive.
pub open spec fn stays(part: Seq<char>, platform: Platform) -> bool {
    &&& part.len() > 0
    &&& part != ".."@
    &&& !part.contains('/')
    &&& !part.contains('\\')
    &&& platform == Platform::Windows ==> !names_drive(part)
}

impl RequestFacts {
    /// The request once all these replies have come, one after another.
    pub open spec fn run(self, replies: Seq<FileReply>) -> RequestFacts
        decreases replies.len(),
    {
        if replies.len() == 0 {
            self
        } else {
            self.run(replies.drop_last()).after(replies.last())
        }
    }
}

proof fn lemma_start_inside(url: Seq<char>, platform: Platform)
    ensures
        touched(request_for(url, platform)) matches Some(parts) ==> forall|i: int|
            0 <= i < parts.len() ==> stays(#[trigger] parts[i], platform),
        !(request_for(url, platform) matches RequestFacts::Done(AnswerFacts::File(_))),
{
    let path = if asked(url).len() == 0 {
        "index.html"@
    } else {
        asked(url)
    };
    let cut = pieces(path, '/');
    law_pieces(path, '/');
    lemma_solid(cut);
    match touched(request_for(url, platform)) {
        Some(parts) => {
            assert forall|i: int| 0 <= i < parts.len() implies stays(
                #[trigger] parts[i],
                platform,
            ) by {
                assert(parts == solid(cut));
                assert(cut.contains(solid(cut)[i]));
                let k = choose|k: int| 0 <= k < cut.len() && cut[k] == parts[i];
                assert(!stray(cut[k], platform));
            }
        },
        None => {},
    }
}

/// Whatever address is asked for and whatever replies come, only the one file is
/// looked at that the address names below the game's folder: every part of its
/// place is a name within the one before it, none is empty, leads upwards, holds a
/// separator or names a drive. A file is answered only where it was found to be a
/// file and was read, and then as what its own name says.
pub proof fn law_requests_stay_inside(url: Seq<char>, platform: Platform, replies: Seq<FileReply>)
    ensures
        ({
            let start = request_for(url, platform);
            let request = start.run(replies);
            &&& touched(request) matches Some(parts) ==> touched(start) == Some(parts) && forall|
                i: int,
            |
                0 <= i < parts.len() ==> stays(#[trigger] parts[i], platform)
            &&& request matches RequestFacts::Done(AnswerFacts::File(content)) ==> touched(start)
                is Some && content == type_at(touched(start)->0) && replies.contains(
                FileReply::IsFile(true),
            ) && replies.contains(FileReply::Data)
            &&& request is Read ==> replies.contains(FileReply::IsFile(true))
        }),
    decreases replies.len(),
{
    lemma_start_inside(url, platform);
    if replies.len() > 0 {
        let rest = replies.drop_last();
        law_requests_stay_inside(url, platform, rest);
        assert(replies[replies.len() - 1] == replies.last());
        if rest.contains(FileReply::IsFile(true)) {
            let k = choose|k: int| 0 <= k < rest.len() && rest[k] == FileReply::IsFile(true);
            assert(replies[k] == FileReply::IsFile(true));
        }
        if rest.contains(FileReply::Data) {
            let k = choose|k: int| 0 <= k < rest.len() && rest[k] == FileReply::Data;
            assert(replies[k] == FileReply::Data);
        }
    }
}

/// Whatever replies come, the launcher starts again exactly on a request for its
/// own name for that, and the controllers' state is given exactly under its name.
pub proof fn law_own_names(url: Seq<char>, platform: Platform, replies: Seq<FileReply>)
    ensures
        request_for(url, platform).run(replies) == RequestFacts::Done(AnswerFacts::Quit)
            <==> asked(url) == "__quit"@,
        request_for(url, platform).run(replies) == RequestFacts::Done(AnswerFacts::Pads)
            <==> asked(url) == "__gamepad"@,
    decreases replies.len(),
{
    if replies.len() == 0 {
        reveal_strlit("__quit");
        reveal_strlit("__gamepad");
        assert("__quit"@.len() != "__gamepad"@.len());
    } else {
        law_own_names(url, platform, replies.drop_last());
    }
}

/// A request for something above the folder is answered that there is no such thing.
pub proof fn law_stray_not_found(url: Seq<char>, platform: Platform, i: int)
    requires
        0 <= i < pieces(asked(url), '/').len(),
        stray(pieces(asked(url), '/')[i], platform),
    ensures
        request_for(url, platform) == RequestFacts::Done(AnswerFacts::NotFound),
{
    reveal_strlit("__gamepad");
    reveal_strlit("__quit");
    reveal_strlit("..");
    let path = asked(url);
    let cut = pieces(path, '/');
    law_pieces(path, '/');
    lemma_piece_within(path, '/', i);
    if path.len() == 0 {
        assert(cut[0].len() == 0);
        assert(false);
    }
    if path == "__gamepad"@ || path == "__quit"@ {
        lemma_pieces_plain(path, '/');
        assert(cut[i] == path);
        assert(path[0] == '_');
        assert forall|k: int| 0 <= k < path.len() implies path[k] != '\\' && path[k] != ':' by {}
        assert(false);
    }
}

proof fn lemma_piece_within(s: Seq<char>, c: char, i: int)
    requires
        0 <= i < pieces(s, c).len(),
    ensures
        pieces(s, c)[i].len() <= s.len(),
    decreases s.len(),
{
    if s.len() > 0 {
        lemma_pieces_nonempty(s.drop_last(), c);
        let before = pieces(s.drop_last(), c);
        if i < before.len() {
            lemma_piece_within(s.drop_last(), c, i);
        }
    }
}

/// The first piece does not change with what comes after the first cut.
proof fn lemma_first_piece(s: Seq<char>, c: char, rest: Seq<char>)
    requires
        !s.contains(c),
    ensures
        pieces(s.push(c) + rest, c)[0] == s,
        pieces(s.push(c) + rest, c).len() >= 2,
    decreases rest.len(),
{
    let all = s.push(c) + rest;
    if rest.len() == 0 {
        assert(all =~= s.push(c));
        assert(all.drop_last() =~= s);
        lemma_pieces_plain(s, c);
    } else {
        assert(all.drop_last() =~= s.push(c) + rest.drop_last());
        lemma_first_piece(s, c, rest.drop_last());
    }
}

/// What comes after a question mark makes no difference.
pub proof fn law_query_ignored(url: Seq<char>, query: Seq<char>, platform: Platform)
    requires
        !url.contains('?'),
    ensures
        request_for(url.push('?') + query, platform) == request_for(url, platform),
{
    lemma_pieces_plain(url, '?');
    lemma_first_piece(url, '?', query);
}

/// Leading slashes make no difference, and an address of nothing else is the
/// game's page.
pub proof fn law_leading_slashes(path: Seq<char>, platform: Platform)
    requires
        !path.contains('?'),
    ensures
        request_for(seq!['/'] + path, platform) == request_for(path, platform),
        request_for(seq!['/'], platform) == RequestFacts::Probe(seq!["index.html"@]),
{
    let longer = seq!['/'] + path;
    assert forall|k: int| 0 <= k < longer.len() implies longer[k] != '?' by {
        if k > 0 {
            assert(longer[k] == path[k - 1]);
        }
    }
    assert(!longer.contains('?'));
    lemma_pieces_plain(path, '?');
    lemma_pieces_plain(longer, '?');
    assert(longer.drop_first() =~= path);
    let root = seq!['/'];
    assert(root.drop_first() =~= Seq::<char>::empty());
    lemma_pieces_plain(root, '?');
    assert(without_leading(root.drop_first(), '/') == root.drop_first());
    assert(asked(root).len() == 0);
    reveal_strlit("index.html");
    reveal_strlit("__gamepad");
    reveal_strlit("__quit");
    reveal_strlit("..");
    let page = "index.html"@;
    lemma_pieces_plain(page, '/');
    assert(pieces(page, '/')[0] == page);
    assert(!stray(page, platform));
    reveal_with_fuel(Seq::filter, 2);
    assert(seq![page].drop_last() =~= Seq::<Seq<char>>::empty());
    assert(solid(seq![page]) =~= seq![page]);
}

/// A part is stray exactly where it leads upwards, holds a backslash or, on Windows,
/// begins with a letter and a colon.
pub proof fn law_stray(part: Seq<char>, platform: Platform)
    ensures
        stray(part, platform) <==> part == ".."@ || (exists|k: int|
            0 <= k < part.len() && #[trigger] part[k] == '\\') || (platform == Platform::Windows
            && part.len() >= 2 && part[1] == ':' && (('a' <= part[0] && part[0] <= 'z') || ('A'
            <= part[0] && part[0] <= 'Z'))),
{
    if part.contains('\\') {
        let k = choose|k: int| 0 <= k < part.len() && part[k] == '\\';
        assert(part[k] == '\\');
    }
}

/// Of the parts those that are not empty count, each in its turn.
pub proof fn law_solid(parts: Seq<Seq<char>>, part: Seq<char>)
    ensures
        solid(Seq::empty()) == Seq::<Seq<char>>::empty(),
        solid(parts.push(part)) == (if part.len() > 0 {
            solid(parts).push(part)
        } else {
            solid(parts)
        }),
        (forall|i: int| 0 <= i < parts.len() ==> (#[trigger] parts[i]).len() > 0) ==> solid(parts)
            == parts,
    decreases parts.len(),
{
    reveal_with_fuel(Seq::filter, 1);
    assert(parts.push(part).drop_last() =~= parts);
    if parts.len() > 0 && forall|i: int| 0 <= i < parts.len() ==> (#[trigger] parts[i]).len() > 0 {
        let rest = parts.drop_last();
        assert forall|i: int| 0 <= i < rest.len() implies (#[trigger] rest[i]).len() > 0 by {
            assert(parts[i].len() > 0);
        }
        law_solid(rest, parts.last());
        assert(parts[parts.len() - 1].len() > 0);
        assert(rest.push(parts.last()) =~= parts);
    } else if parts.len() == 0 {
        assert(parts =~= Seq::<Seq<char>>::empty());
    }
}

proof fn lemma_joined(parts: Seq<Seq<char>>, c: char, d: char)
    requires
        parts.len() > 0,
        c != d,
        forall|i: int| 0 <= i < parts.len() ==> !(#[trigger] parts[i]).contains(d),
    ensures
        !joined(parts, seq![c]).contains(d),
        joined(parts, seq![c]).len() >= parts[0].len(),
        joined(parts, seq![c]).take(parts[0].len() as int) == parts[0],
        parts.len() > 1 ==> joined(parts, seq![c]).contains(c),
    decreases parts.len(),
{
    let all = joined(parts, seq![c]);
    if parts.len() == 1 {
        assert(!parts[0].contains(d));
        assert(all.take(parts[0].len() as int) =~= parts[0]);
    } else {
        let rest = parts.drop_last();
        let before = joined(rest, seq![c]);
        assert forall|i: int| 0 <= i < rest.len() implies !(#[trigger] rest[i]).contains(d) by {
            assert(!parts[i].contains(d));
        }
        lemma_joined(rest, c, d);
        assert(!parts[parts.len() - 1].contains(d));
        let last = parts.last();
        assert forall|k: int| 0 <= k < all.len() implies all[k] != d by {
            if k < before.len() {
                assert(all[k] == before[k]);
            } else if k > before.len() {
                assert(all[k] == last[k - before.len() - 1]);
            }
        }
        assert(all.take(parts[0].len() as int) =~= before.take(parts[0].len() as int));
        assert(all[before.len() as int] == c);
    }
}

/// An address names its file: the parts of the place that is looked at are the parts
/// that the address is joined from, all that are not empty and in order, however many
/// there are. Where one of them is stray, there is no such file.
pub proof fn law_address_names_its_file(parts: Seq<Seq<char>>, platform: Platform)
    requires
        parts.len() > 0,
        parts[0].len() > 0,
        forall|i: int|
            0 <= i < parts.len() ==> !(#[trigger] parts[i]).contains('/') && !parts[i].contains('?'),
        parts.len() == 1 ==> parts[0] != "__gamepad"@ && parts[0] != "__quit"@,
    ensures
        ({
            let request = request_for(seq!['/'] + joined(parts, seq!['/']), platform);
            &&& (exists|i: int| 0 <= i < parts.len() && stray(#[trigger] parts[i], platform))
                ==> request == RequestFacts::Done(AnswerFacts::NotFound)
            &&& !(exists|i: int| 0 <= i < parts.len() && stray(#[trigger] parts[i], platform))
                ==> request == RequestFacts::Probe(solid(parts))
            &&& !(exists|i: int| 0 <= i < parts.len() && stray(#[trigger] parts[i], platform))
                && (forall|i: int| 0 <= i < parts.len() ==> (#[trigger] parts[i]).len() > 0)
                ==> request == RequestFacts::Probe(parts)
        }),
{
    reveal_strlit("__gamepad");
    reveal_strlit("__quit");
    let path = joined(parts, seq!['/']);
    let url = seq!['/'] + path;
    lemma_joined(parts, '/', '?');
    assert forall|i: int| 0 <= i < parts.len() implies !(#[trigger] parts[i]).contains('/') by {}
    law_pieces_of_joined(parts, '/');
    assert(path[0] == path.take(parts[0].len() as int)[0]);
    assert(parts[0][0] != '/') by {
        assert(!parts[0].contains('/'));
    }
    assert forall|k: int| 0 <= k < url.len() implies url[k] != '?' by {
        if k > 0 {
            assert(url[k] == path[k - 1]);
        }
    }
    assert(!url.contains('?'));
    lemma_pieces_plain(url, '?');
    assert(url.drop_first() =~= path);
    assert(without_leading(path, '/') == path);
    assert(asked(url) == path);
    if path == "__gamepad"@ || path == "__quit"@ {
        if parts.len() > 1 {
            assert(path.contains('/'));
            let k = choose|k: int| 0 <= k < path.len() && path[k] == '/';
            assert(path[k] != '/');
        }
    }
    law_solid(parts, parts[0]);
}

/// What stands after the last dot of a file's name, where something stands before
/// that dot, decides the type of its content; a name without a dot, or with none but
/// at its start, is of no particular type. A part that is the folder itself makes no
/// difference.
pub proof fn law_content_types(
    dir: Seq<Seq<char>>,
    stem: Seq<char>,
    ext: Seq<char>,
    plain: Seq<char>,
)
    requires
        stem.len() > 0,
        !ext.contains('.'),
        !plain.contains('.'),
    ensures
        type_at(dir.push(stem.push('.') + ext)) == (if ext == "html"@ {
            "text/html; charset=utf-8"@
        } else if ext == "js"@ {
            "text/javascript; charset=utf-8"@
        } else if ext == "css"@ {
            "text/css; charset=utf-8"@
        } else if ext == "json"@ {
            "application/json; charset=utf-8"@
        } else if ext == "png"@ {
            "image/png"@
        } else if ext == "jpg"@ || ext == "jpeg"@ {
            "image/jpeg"@
        } else if ext == "gif"@ {
            "image/gif"@
        } else if ext == "svg"@ {
            "image/svg+xml"@
        } else if ext == "wav"@ {
            "audio/wav"@
        } else if ext == "mp3"@ {
            "audio/mpeg"@
        } else if ext == "ogg"@ {
            "audio/ogg"@
        } else if ext == "woff2"@ {
            "font/woff2"@
        } else {
            "application/octet-stream"@
        }),
        type_at(dir.push(plain)) == "application/octet-stream"@,
        plain.len() > 0 ==> type_at(dir.push(seq!['.'] + plain)) == "application/octet-stream"@,
        type_at(dir.push("."@)) == type_at(dir),
{
    reveal_strlit(".");
    reveal_strlit("..");
    reveal_strlit("html");
    reveal_strlit("js");
    reveal_strlit("css");
    reveal_strlit("json");
    reveal_strlit("png");
    reveal_strlit("jpg");
    reveal_strlit("jpeg");
    reveal_strlit("gif");
    reveal_strlit("svg");
    reveal_strlit("wav");
    reveal_strlit("mp3");
    reveal_strlit("ogg");
    reveal_strlit("woff2");
    let name = stem.push('.') + ext;
    assert(dir.push(name).last() == name);
    lemma_pieces_nonempty(stem, '.');
    law_pieces(stem, '.');
    lemma_pieces_after(stem, '.', ext);
    let cut = pieces(name, '.');
    if pieces(stem, '.').len() == 1 {
        assert(pieces(stem, '.')[0] == stem);
        assert(cut[0] == stem);
    }
    assert(cut.last() == ext);
    if name == ".."@ {
        assert(ext.len() == 0);
    }
    assert(name.len() >= 2);
    assert(dir.push(plain).last() == plain);
    lemma_pieces_plain(plain, '.');
    if plain == "."@ {
        assert(plain[0] == '.');
        assert(plain.contains('.'));
    }
    let hidden = seq!['.'] + plain;
    let none = Seq::<char>::empty();
    assert(dir.push(hidden).last() == hidden);
    lemma_pieces_plain(none, '.');
    lemma_pieces_after(none, '.', plain);
    assert(none.push('.') + plain =~= hidden);
    assert(pieces(hidden, '.')[0].len() == 0);
    assert(dir.push("."@).last() == "."@);
    assert(dir.push("."@).drop_last() =~= dir);
}

/// The answers as they are sent, one by one.
pub proof fn law_answers_as_sent(content: Seq<char>)
    ensures
        AnswerFacts::Pads.status() == 200,
        AnswerFacts::Quit.status() == 200,
        AnswerFacts::NotFound.status() == 404,
        AnswerFacts::ReadError.status() == 500,
        AnswerFacts::File(content).status() == 200,
        AnswerFacts::Pads.content_type() == Some("application/json"@),
        AnswerFacts::File(content).content_type() == Some(content),
        AnswerFacts::Quit.content_type() is None,
        AnswerFacts::NotFound.content_type() is None,
        AnswerFacts::ReadError.content_type() is None,
        AnswerFacts::Quit.text() == Some("bye"@),
        AnswerFacts::NotFound.text() == Some("Not found"@),
        AnswerFacts::ReadError.text() == Some("Read error"@),
        AnswerFacts::Pads.text() is None,
        AnswerFacts::File(content).text() is None,
{
}

/// A request step by step: what is no file is not found; what is one is read, and
/// answered as what it is or, where it cannot be read, with an error.
pub proof fn law_request_step_by_step(parts: Seq<Seq<char>>, answer: AnswerFacts, reply: FileReply)
    ensures
        RequestFacts::Probe(parts).after(reply) == (match reply {
            FileReply::IsFile(true) => RequestFacts::Read(parts),
            FileReply::IsFile(false) => RequestFacts::Done(AnswerFacts::NotFound),
            _ => RequestFacts::Probe(parts),
        }),
        RequestFacts::Read(parts).after(reply) == (match reply {
            FileReply::Data => RequestFacts::Done(AnswerFacts::File(type_at(parts))),
            FileReply::Failed => RequestFacts::Done(AnswerFacts::ReadError),
            FileReply::IsFile(_) => RequestFacts::Read(parts),
        }),
        RequestFacts::Done(answer).after(reply) == RequestFacts::Done(answer),
{
}

/// What an address asks for is what stands after its leading slashes and before its
/// first question mark.
pub proof fn law_asked(slashes: nat, path: Seq<char>, query: Seq<char>)
    requires
        !path.contains('?'),
        path.len() > 0 ==> path[0] != '/',
    ensures
        ({
            let url = Seq::new(slashes, |k: int| '/') + path;
            asked(url) == path && asked(url.push('?') + query) == path
        }),
{
    let run = Seq::new(slashes, |k: int| '/');
    let url = run + path;
    assert forall|k: int| 0 <= k < url.len() implies url[k] != '?' by {
        if k >= slashes {
            assert(url[k] == path[k - slashes]);
        }
    }
    assert(!url.contains('?'));
    lemma_pieces_plain(url, '?');
    lemma_first_piece(url, '?', query);
    law_without_leading(url, '/');
    let left = without_leading(url, '/');
    let n = url.len() - left.len();
    assert(url.skip(n) == left);
    if n < slashes {
        assert(left[0] == url[n]);
    }
    if n > slashes {
        assert(url[slashes as int] == path[0]);
        assert(url[slashes as int] == (Seq::new(n as nat, |k: int| '/') + left)[slashes as int]);
    }
    assert(left =~= path);
}

/// What is to be done and what is answered is taken as it is given.
pub proof fn law_request_words(parts: Vec<String>, answer: Answer, content: &'static str)
    ensures
        Request::Probe(parts)@ == RequestFacts::Probe(texts(parts@)),
        Request::Read(parts)@ == RequestFacts::Read(texts(parts@)),
        Request::Done(answer)@ == RequestFacts::Done(answer@),
        Answer::Pads@ == AnswerFacts::Pads,
        Answer::Quit@ == AnswerFacts::Quit,
        Answer::NotFound@ == AnswerFacts::NotFound,
        Answer::ReadError@ == AnswerFacts::ReadError,
        Answer::File(content)@ == AnswerFacts::File(content@),
{
}

} // verus!
