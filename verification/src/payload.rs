//! The fetching of a game's payload, step by step: the fetch says what is to be
//! done next, and is told what came of it. A file is written beside its target
//! and renamed once it is whole, so an interrupted fetch never leaves a half
//! file where a whole one belongs.

use crate::catalog::{slices, Game, GameFacts};
use crate::folders::{support_parts, support_path};
use crate::http::{status_shown, success, HttpStatus};
use crate::json::{document_in, parse, Json, JsonTree};
use crate::platform::Platform;
use crate::release::{payload_asset, payload_offer};
use crate::text::{decimal, decimal_text, joined_pair, texts};
use vstd::prelude::*;

verus! {

/// A file to fetch: where it comes from, what it is called, and how large it is
/// (zero where the release does not say).
pub struct PayloadFile {
    pub url: String,
    pub name: String,
    pub size: u64,
}

#[verifier::ext_equal]
pub struct FileFacts {
    pub url: Seq<char>,
    pub name: Seq<char>,
    pub size: u64,
}

impl View for PayloadFile {
    type V = FileFacts;

    open spec fn view(&self) -> FileFacts {
        FileFacts { url: self.url@, name: self.name@, size: self.size }
    }
}

/// How far a fetch has come. The number with a file is that of the suffix it
/// was found by.
pub enum FetchStage {
    AskRelease,
    ReadRelease,
    Probe(usize, PayloadFile),
    MakeDir(usize, PayloadFile),
    Request(usize, PayloadFile),
    Create(usize, PayloadFile),
    /// Bytes are coming; so many are written.
    Pull(usize, PayloadFile, u64),
    /// The bytes have ended too early or too late.
    Discard(usize, PayloadFile, u64),
    /// The bytes have ended where they should.
    Rename(usize, PayloadFile, u64),
    Done(Result<(), String>),
}

#[verifier::ext_equal]
pub enum FetchStageFacts {
    AskRelease,
    ReadRelease,
    Probe(int, FileFacts),
    MakeDir(int, FileFacts),
    Request(int, FileFacts),
    Create(int, FileFacts),
    Pull(int, FileFacts, int),
    Discard(int, FileFacts, int),
    Rename(int, FileFacts, int),
    Done(Result<(), Seq<char>>),
}

/// What an outcome says.
pub open spec fn outcome_told(r: Result<(), String>) -> Result<(), Seq<char>> {
    match r {
        Ok(_) => Ok(()),
        Err(e) => Err(e@),
    }
}

impl View for FetchStage {
    type V = FetchStageFacts;

    open spec fn view(&self) -> FetchStageFacts {
        match *self {
            FetchStage::AskRelease => FetchStageFacts::AskRelease,
            FetchStage::ReadRelease => FetchStageFacts::ReadRelease,
            FetchStage::Probe(i, f) => FetchStageFacts::Probe(i as int, f@),
            FetchStage::MakeDir(i, f) => FetchStageFacts::MakeDir(i as int, f@),
            FetchStage::Request(i, f) => FetchStageFacts::Request(i as int, f@),
            FetchStage::Create(i, f) => FetchStageFacts::Create(i as int, f@),
            FetchStage::Pull(i, f, w) => FetchStageFacts::Pull(i as int, f@, w as int),
            FetchStage::Discard(i, f, w) => FetchStageFacts::Discard(i as int, f@, w as int),
            FetchStage::Rename(i, f, w) => FetchStageFacts::Rename(i as int, f@, w as int),
            FetchStage::Done(r) => FetchStageFacts::Done(outcome_told(r)),
        }
    }
}

/// The fetching of the payload of one game.
pub struct PayloadFetch {
    repo: String,
    tag: String,
    suffixes: Vec<String>,
    dir: Option<Vec<String>>,
    release: Json,
    stage: FetchStage,
}

#[verifier::ext_equal]
pub struct FetchFacts {
    pub repo: Seq<char>,
    pub tag: Seq<char>,
    pub suffixes: Seq<Seq<char>>,
    /// The directory that the files go to, where there is one.
    pub dir: Option<Seq<Seq<char>>>,
    pub release: JsonTree,
    pub stage: FetchStageFacts,
}

impl View for PayloadFetch {
    type V = FetchFacts;

    closed spec fn view(&self) -> FetchFacts {
        FetchFacts {
            repo: self.repo@,
            tag: self.tag@,
            suffixes: texts(self.suffixes@),
            dir: match self.dir {
                Some(parts) => Some(texts(parts@)),
                None => None,
            },
            release: self.release@,
            stage: self.stage@,
        }
    }
}

/// What is to be done next. A place is given by its parts.
pub enum FetchAction {
    /// Ask for the release at this address.
    Get(String),
    /// Read the text of the answer.
    ReadBody,
    /// Look how large the file at this place is.
    Probe(Vec<String>),
    /// Create this directory, with those above it.
    MakeDir(Vec<String>),
    /// Ask for the file at this address.
    Download(String),
    /// Create an empty file at this place.
    Create(Vec<String>),
    /// Take the next bytes of the answer and append them to the new file.
    Pull,
    /// Delete the file at this place.
    Remove(Vec<String>),
    /// Move the file at the first place to the second.
    Rename(Vec<String>, Vec<String>),
    /// Nothing more.
    Nothing,
}

#[verifier::ext_equal]
pub enum FetchActionFacts {
    Get(Seq<char>),
    ReadBody,
    Probe(Seq<Seq<char>>),
    MakeDir(Seq<Seq<char>>),
    Download(Seq<char>),
    Create(Seq<Seq<char>>),
    Pull,
    Remove(Seq<Seq<char>>),
    Rename(Seq<Seq<char>>, Seq<Seq<char>>),
    Nothing,
}

impl View for FetchAction {
    type V = FetchActionFacts;

    open spec fn view(&self) -> FetchActionFacts {
        match *self {
            FetchAction::Get(url) => FetchActionFacts::Get(url@),
            FetchAction::ReadBody => FetchActionFacts::ReadBody,
            FetchAction::Probe(p) => FetchActionFacts::Probe(texts(p@)),
            FetchAction::MakeDir(p) => FetchActionFacts::MakeDir(texts(p@)),
            FetchAction::Download(url) => FetchActionFacts::Download(url@),
            FetchAction::Create(p) => FetchActionFacts::Create(texts(p@)),
            FetchAction::Pull => FetchActionFacts::Pull,
            FetchAction::Remove(p) => FetchActionFacts::Remove(texts(p@)),
            FetchAction::Rename(p, q) => FetchActionFacts::Rename(texts(p@), texts(q@)),
            FetchAction::Nothing => FetchActionFacts::Nothing,
        }
    }
}

/// What came of it.
pub enum FetchReply {
    /// It was done.
    Done,
    /// It failed.
    Failed(String),
    /// The status of an answer.
    Status(HttpStatus),
    /// The text of an answer.
    Body(Vec<u8>),
    /// The size of the file that was looked at; nothing where there is none.
    Size(Option<u64>),
    /// So many bytes came and were appended.
    Chunk(u64),
    /// No more bytes come.
    End,
}

pub enum FetchReplyFacts {
    Done,
    Failed(Seq<char>),
    Status(u16),
    Body(Seq<u8>),
    Size(Option<u64>),
    Chunk(u64),
    End,
}

impl View for FetchReply {
    type V = FetchReplyFacts;

    open spec fn view(&self) -> FetchReplyFacts {
        match *self {
            FetchReply::Done => FetchReplyFacts::Done,
            FetchReply::Failed(e) => FetchReplyFacts::Failed(e@),
            FetchReply::Status(status) => FetchReplyFacts::Status(status.code()),
            FetchReply::Body(body) => FetchReplyFacts::Body(body@),
            FetchReply::Size(size) => FetchReplyFacts::Size(size),
            FetchReply::Chunk(n) => FetchReplyFacts::Chunk(n),
            FetchReply::End => FetchReplyFacts::End,
        }
    }
}

// ---- What a fetch does ---------------------------------------------------------------

/// Where the release under a tag of a repository is described.
pub open spec fn tag_address(repo: Seq<char>, tag: Seq<char>) -> Seq<char> {
    "https://api.github.com/repos/"@ + repo + "/releases/tags/"@ + tag
}

/// The name of a file while it is not whole.
pub open spec fn part_name(name: Seq<char>) -> Seq<char> {
    name + ".part"@
}

/// The file that was looked at is the one that the release describes.
pub open spec fn already_there(file: FileFacts, found: Option<u64>) -> bool {
    found matches Some(len) && (file.size == 0 || len == file.size)
}

/// So many bytes are the whole of a file.
pub open spec fn whole(file: FileFacts, written: int) -> bool {
    file.size == 0 || written == file.size
}

/// What is said of a file that is not whole.
pub open spec fn short_message(file: FileFacts, written: int) -> Seq<char> {
    "payload "@ + file.name + " arrived "@ + decimal(written as nat) + " bytes of "@ + decimal(
        file.size as nat,
    )
}

/// The stage at which the files from the `i`th suffix on are to be seen to: the
/// first of them that the release offers, or the end.
pub open spec fn due(release: JsonTree, suffixes: Seq<Seq<char>>, i: int) -> FetchStageFacts
    decreases suffixes.len() - i,
{
    if 0 <= i < suffixes.len() {
        match payload_offer(release, suffixes[i]) {
            Some((url, name, size)) => FetchStageFacts::Probe(i, FileFacts { url, name, size }),
            None => due(release, suffixes, i + 1),
        }
    } else {
        FetchStageFacts::Done(Ok(()))
    }
}

/// The fetch for a game.
pub open spec fn fetch_for(game: GameFacts, platform: Platform, home: Option<Seq<char>>) -> FetchFacts {
    match game.payload {
        Some(payload) => FetchFacts {
            repo: game.repo,
            tag: payload.tag,
            suffixes: payload.assets,
            dir: match home {
                Some(h) => Some(support_parts(platform, payload.support_dir, payload.into, h)),
                None => None,
            },
            release: JsonTree::Null,
            stage: FetchStageFacts::AskRelease,
        },
        None => FetchFacts {
            repo: game.repo,
            tag: Seq::empty(),
            suffixes: Seq::empty(),
            dir: None,
            release: JsonTree::Null,
            stage: FetchStageFacts::Done(Ok(())),
        },
    }
}

impl FetchFacts {
    /// The directory that the files go to.
    pub open spec fn place(self) -> Seq<Seq<char>> {
        match self.dir {
            Some(parts) => parts,
            None => Seq::empty(),
        }
    }

    /// The place of a file of that name.
    pub open spec fn place_of(self, name: Seq<char>) -> Seq<Seq<char>> {
        self.place().push(name)
    }

    /// What is to be done next.
    pub open spec fn action(self) -> FetchActionFacts {
        match self.stage {
            FetchStageFacts::AskRelease => FetchActionFacts::Get(tag_address(self.repo, self.tag)),
            FetchStageFacts::ReadRelease => FetchActionFacts::ReadBody,
            FetchStageFacts::Probe(_, f) => FetchActionFacts::Probe(self.place_of(f.name)),
            FetchStageFacts::MakeDir(_, _) => FetchActionFacts::MakeDir(self.place()),
            FetchStageFacts::Request(_, f) => FetchActionFacts::Download(f.url),
            FetchStageFacts::Create(_, f) => FetchActionFacts::Create(
                self.place_of(part_name(f.name)),
            ),
            FetchStageFacts::Pull(_, _, _) => FetchActionFacts::Pull,
            FetchStageFacts::Discard(_, f, _) => FetchActionFacts::Remove(
                self.place_of(part_name(f.name)),
            ),
            FetchStageFacts::Rename(_, f, _) => FetchActionFacts::Rename(
                self.place_of(part_name(f.name)),
                self.place_of(f.name),
            ),
            FetchStageFacts::Done(_) => FetchActionFacts::Nothing,
        }
    }

    /// The fetch at another stage.
    pub open spec fn at(self, stage: FetchStageFacts) -> FetchFacts {
        FetchFacts { stage, ..self }
    }

    /// The fetch, failed.
    pub open spec fn failed(self, e: Seq<char>) -> FetchFacts {
        self.at(FetchStageFacts::Done(Err(e)))
    }

    /// The fetch once the text of the release has come.
    pub open spec fn after_release(self, document: Option<JsonTree>) -> FetchFacts {
        match (document, self.dir) {
            (None, _) => self.failed("error decoding response body"@),
            (Some(_), None) => self.failed("could not find the game's support directory"@),
            (Some(release), Some(_)) => FetchFacts {
                release,
                stage: due(release, self.suffixes, 0),
                ..self
            },
        }
    }

    /// The fetch once `reply` has come. A reply that does not belong to what was
    /// to be done changes nothing.
    pub open spec fn after(self, reply: FetchReplyFacts) -> FetchFacts {
        match (self.stage, reply) {
            (FetchStageFacts::Done(_), _) => self,
            // Whether a half file can be deleted makes no difference.
            (FetchStageFacts::Discard(_, f, w), FetchReplyFacts::Done) => self.failed(
                short_message(f, w),
            ),
            (FetchStageFacts::Discard(_, f, w), FetchReplyFacts::Failed(_)) => self.failed(
                short_message(f, w),
            ),
            (FetchStageFacts::Probe(_, _), FetchReplyFacts::Failed(_)) => self,
            (_, FetchReplyFacts::Failed(e)) => self.failed(e),
            // A release that is not there is no error: the game runs without its payload.
            (FetchStageFacts::AskRelease, FetchReplyFacts::Status(code)) => if success(code) {
                self.at(FetchStageFacts::ReadRelease)
            } else {
                self.at(FetchStageFacts::Done(Ok(())))
            },
            (FetchStageFacts::ReadRelease, FetchReplyFacts::Body(body)) => self.after_release(
                document_in(body),
            ),
            (FetchStageFacts::Probe(i, f), FetchReplyFacts::Size(found)) => if already_there(
                f,
                found,
            ) {
                self.at(due(self.release, self.suffixes, i + 1))
            } else {
                self.at(FetchStageFacts::MakeDir(i, f))
            },
            (FetchStageFacts::MakeDir(i, f), FetchReplyFacts::Done) => self.at(
                FetchStageFacts::Request(i, f),
            ),
            (FetchStageFacts::Request(i, f), FetchReplyFacts::Status(code)) => if success(code) {
                self.at(FetchStageFacts::Create(i, f))
            } else {
                self.failed("payload download returned "@ + status_shown(code))
            },
            (FetchStageFacts::Create(i, f), FetchReplyFacts::Done) => self.at(
                FetchStageFacts::Pull(i, f, 0),
            ),
            (FetchStageFacts::Pull(i, f, w), FetchReplyFacts::Chunk(n)) => self.at(
                FetchStageFacts::Pull(i, f, w + n),
            ),
            (FetchStageFacts::Pull(i, f, w), FetchReplyFacts::End) => if whole(f, w) {
                self.at(FetchStageFacts::Rename(i, f, w))
            } else {
                self.at(FetchStageFacts::Discard(i, f, w))
            },
            (FetchStageFacts::Rename(i, _, _), FetchReplyFacts::Done) => self.at(
                due(self.release, self.suffixes, i + 1),
            ),
            _ => self,
        }
    }

    /// The count of the bytes that are written stays within sixty-four bits.
    pub open spec fn fits(self, reply: FetchReplyFacts) -> bool {
        match (self.stage, reply) {
            (FetchStageFacts::Pull(_, _, w), FetchReplyFacts::Chunk(n)) => w + n <= u64::MAX,
            _ => true,
        }
    }

    /// How the fetch ended, once it has.
    pub open spec fn outcome(self) -> Option<Result<(), Seq<char>>> {
        match self.stage {
            FetchStageFacts::Done(r) => Some(r),
            _ => None,
        }
    }
}

// ---- The fetch -------------------------------------------------------------------------

/// The texts of a list of string slices.
fn owned(list: &Vec<&'static str>) -> (out: Vec<String>)
    ensures
        texts(out@) == slices(list@),
{
    let mut out: Vec<String> = Vec::new();
    let mut i: usize = 0;
    while i < list.len()
        invariant
            i <= list.len(),
            out@.len() == i,
            forall|k: int| 0 <= k < i ==> (#[trigger] out@[k])@ == list@[k]@,
        decreases list.len() - i,
    {
        out.push(list[i].to_owned());
        i += 1;
    }
    assert(texts(out@) =~= slices(list@));
    out
}

/// The parts of a place and one more.
fn place_with(parts: &Option<Vec<String>>, name: Option<&str>) -> (out: Vec<String>)
    ensures
        texts(out@) == ({
            let base = match parts {
                Some(p) => texts(p@),
                None => Seq::empty(),
            };
            match name {
                Some(n) => base.push(n@),
                None => base,
            }
        }),
{
    let mut out: Vec<String> = Vec::new();
    match parts {
        Some(p) => {
            let mut i: usize = 0;
            while i < p.len()
                invariant
                    i <= p.len(),
                    out@.len() == i,
                    forall|k: int| 0 <= k < i ==> (#[trigger] out@[k])@ == p@[k]@,
                decreases p.len() - i,
            {
                out.push(p[i].clone());
                i += 1;
            }
            assert(texts(out@) =~= texts(p@));
        },
        None => {
            assert(texts(out@) =~= Seq::<Seq<char>>::empty());
        },
    }
    match name {
        Some(n) => {
            let ghost before = out@;
            out.push(n.to_owned());
            assert(texts(out@) =~= texts(before).push(n@));
        },
        None => {},
    }
    out
}

/// Where the release under a tag of a repository is described.
pub fn tag_url(repo: &str, tag: &str) -> (url: String)
    ensures
        url@ == tag_address(repo@, tag@),
{
    let mut url = "https://api.github.com/repos/".to_owned();
    url.append(repo);
    url.append("/releases/tags/");
    url.append(tag);
    url
}

/// The first file, from the `from`th suffix on, that the release offers.
fn next_due(release: &Json, suffixes: &Vec<String>, from: usize) -> (stage: FetchStage)
    ensures
        stage@ == due(release@, texts(suffixes@), from as int),
{
    let mut i: usize = from;
    while i < suffixes.len()
        invariant
            from <= i,
            i <= suffixes.len() || i == from,
            due(release@, texts(suffixes@), from as int) == due(
                release@,
                texts(suffixes@),
                i as int,
            ),
        decreases suffixes.len() - i,
    {
        match payload_asset(release, suffixes[i].as_str()) {
            Some(found) => {
                let (url, name, size) = found;
                return FetchStage::Probe(i, PayloadFile { url, name, size });
            },
            None => {},
        }
        i += 1;
    }
    FetchStage::Done(Ok(()))
}

/// What comes after the file of the `i`th suffix.
fn due_after(release: &Json, suffixes: &Vec<String>, i: usize) -> (stage: FetchStage)
    ensures
        stage@ == due(release@, texts(suffixes@), i + 1),
{
    if i < suffixes.len() {
        next_due(release, suffixes, i + 1)
    } else {
        FetchStage::Done(Ok(()))
    }
}

/// What is said of a file that is not whole.
fn short_text(file: &PayloadFile, written: u64) -> (text: String)
    ensures
        text@ == short_message(file@, written as int),
{
    let mut text = "payload ".to_owned();
    text.append(file.name.as_str());
    text.append(" arrived ");
    text.append(decimal_text(written).as_str());
    text.append(" bytes of ");
    text.append(decimal_text(file.size).as_str());
    text
}

/// Starts the fetching of a game's payload. `home` is the value of the variable
/// that names the folder of all support directories, where it is set.
pub fn fetch_payload(game: &Game, platform: Platform, home: Option<&str>) -> (fetch: PayloadFetch)
    ensures
        fetch@ == fetch_for(
            game@,
            platform,
            match home {
                Some(h) => Some(h@),
                None => None,
            },
        ),
{
    match &game.payload {
        Some(payload) => PayloadFetch {
            repo: game.repo.to_owned(),
            tag: payload.tag.to_owned(),
            suffixes: owned(&payload.assets),
            dir: support_path(platform, payload.support_dir, payload.into, home),
            release: Json::Null,
            stage: FetchStage::AskRelease,
        },
        None => {
            let fetch = PayloadFetch {
                repo: game.repo.to_owned(),
                tag: String::new(),
                suffixes: Vec::new(),
                dir: None,
                release: Json::Null,
                stage: FetchStage::Done(Ok(())),
            };
            assert(texts(fetch.suffixes@) =~= Seq::<Seq<char>>::empty());
            fetch
        },
    }
}

impl PayloadFetch {
    /// What is to be done next.
    pub fn action(&self) -> (action: FetchAction)
        ensures
            action@ == self@.action(),
    {
        match &self.stage {
            FetchStage::AskRelease => FetchAction::Get(
                tag_url(self.repo.as_str(), self.tag.as_str()),
            ),
            FetchStage::ReadRelease => FetchAction::ReadBody,
            FetchStage::Probe(_, f) => FetchAction::Probe(
                place_with(&self.dir, Some(f.name.as_str())),
            ),
            FetchStage::MakeDir(_, _) => FetchAction::MakeDir(place_with(&self.dir, None)),
            FetchStage::Request(_, f) => FetchAction::Download(f.url.clone()),
            FetchStage::Create(_, f) => {
                let part = joined_pair(f.name.as_str(), ".part");
                FetchAction::Create(place_with(&self.dir, Some(part.as_str())))
            },
            FetchStage::Pull(_, _, _) => FetchAction::Pull,
            FetchStage::Discard(_, f, _) => {
                let part = joined_pair(f.name.as_str(), ".part");
                FetchAction::Remove(place_with(&self.dir, Some(part.as_str())))
            },
            FetchStage::Rename(_, f, _) => {
                let part = joined_pair(f.name.as_str(), ".part");
                FetchAction::Rename(
                    place_with(&self.dir, Some(part.as_str())),
                    place_with(&self.dir, Some(f.name.as_str())),
                )
            },
            FetchStage::Done(_) => FetchAction::Nothing,
        }
    }

    /// Whether so many bytes more can still be counted.
    pub fn has_room(&self, n: u64) -> (yes: bool)
        ensures
            yes == self@.fits(FetchReplyFacts::Chunk(n)),
    {
        match &self.stage {
            FetchStage::Pull(_, _, w) => n <= u64::MAX - *w,
            _ => true,
        }
    }

    /// The fetch once the document that describes the release is decoded; nothing
    /// stands for a text that is none. It changes nothing unless the fetch waits for it.
    pub fn with_release(self, document: Option<Json>) -> (fetch: PayloadFetch)
        ensures
            fetch@ == (if self@.stage is ReadRelease {
                self@.after_release(
                    match document {
                        Some(release) => Some(release@),
                        None => None,
                    },
                )
            } else {
                self@
            }),
    {
        let PayloadFetch { repo, tag, suffixes, dir, release, stage } = self;
        let mut release = release;
        let stage = match stage {
            FetchStage::ReadRelease => match document {
                None => FetchStage::Done(Err("error decoding response body".to_owned())),
                Some(document) => {
                    if dir.is_none() {
                        FetchStage::Done(
                            Err("could not find the game's support directory".to_owned()),
                        )
                    } else {
                        release = document;
                        next_due(&release, &suffixes, 0)
                    }
                },
            },
            stage => stage,
        };
        PayloadFetch { repo, tag, suffixes, dir, release, stage }
    }

    /// The fetch once `reply` has come.
    pub fn next(self, reply: FetchReply) -> (fetch: PayloadFetch)
        requires
            self@.fits(reply@),
        ensures
            fetch@ == self@.after(reply@),
    {
        let PayloadFetch { repo, tag, suffixes, dir, release, stage } = self;
        let stage = match (stage, reply) {
            (FetchStage::Done(r), _) => FetchStage::Done(r),
            (FetchStage::Discard(_, f, w), FetchReply::Done) => FetchStage::Done(
                Err(short_text(&f, w)),
            ),
            (FetchStage::Discard(_, f, w), FetchReply::Failed(_)) => FetchStage::Done(
                Err(short_text(&f, w)),
            ),
            (FetchStage::Probe(i, f), FetchReply::Failed(_)) => FetchStage::Probe(i, f),
            (_, FetchReply::Failed(e)) => FetchStage::Done(Err(e)),
            (FetchStage::AskRelease, FetchReply::Status(status)) => {
                if status.is_success() {
                    FetchStage::ReadRelease
                } else {
                    FetchStage::Done(Ok(()))
                }
            },
            (FetchStage::ReadRelease, FetchReply::Body(body)) => {
                let fetch = PayloadFetch {
                    repo,
                    tag,
                    suffixes,
                    dir,
                    release,
                    stage: FetchStage::ReadRelease,
                };
                return fetch.with_release(parse(body.as_slice()));
            },
            (FetchStage::Probe(i, f), FetchReply::Size(found)) => {
                let there = match found {
                    Some(len) => f.size == 0 || len == f.size,
                    None => false,
                };
                if there {
                    due_after(&release, &suffixes, i)
                } else {
                    FetchStage::MakeDir(i, f)
                }
            },
            (FetchStage::MakeDir(i, f), FetchReply::Done) => FetchStage::Request(i, f),
            (FetchStage::Request(i, f), FetchReply::Status(status)) => {
                if status.is_success() {
                    FetchStage::Create(i, f)
                } else {
                    FetchStage::Done(
                        Err(
                            joined_pair("payload download returned ", status.shown().as_str()),
                        ),
                    )
                }
            },
            (FetchStage::Create(i, f), FetchReply::Done) => FetchStage::Pull(i, f, 0),
            (FetchStage::Pull(i, f, w), FetchReply::Chunk(n)) => FetchStage::Pull(i, f, w + n),
            (FetchStage::Pull(i, f, w), FetchReply::End) => {
                if f.size != 0 && w != f.size {
                    FetchStage::Discard(i, f, w)
                } else {
                    FetchStage::Rename(i, f, w)
                }
            },
            (FetchStage::Rename(i, _, _), FetchReply::Done) => due_after(&release, &suffixes, i),
            (stage, _) => stage,
        };
        PayloadFetch { repo, tag, suffixes, dir, release, stage }
    }

    /// How the fetch ended, once it has.
    pub fn outcome(&self) -> (outcome: Option<Result<(), String>>)
        ensures
            (match outcome {
                Some(r) => Some(outcome_told(r)),
                None => None,
            }) == self@.outcome(),
    {
        match &self.stage {
            FetchStage::Done(Ok(_)) => Some(Ok(())),
            FetchStage::Done(Err(e)) => Some(Err(e.clone())),
            _ => None,
        }
    }
}

// ---- Laws ------------------------------------------------------------------------------------

impl FetchFacts {
    /// The fetch once all these replies have come, one after another.
    pub open spec fn run(self, replies: Seq<FetchReplyFacts>) -> FetchFacts
        decreases replies.len(),
    {
        if replies.len() == 0 {
            self
        } else {
            self.run(replies.drop_last()).after(replies.last())
        }
    }

    /// How many bytes have been appended to the newest file by these replies.
    pub open spec fn appended(self, replies: Seq<FetchReplyFacts>) -> int
        decreases replies.len(),
    {
        if replies.len() == 0 {
            0
        } else {
            let so_far = self.appended(replies.drop_last());
            match (self.run(replies.drop_last()).stage, replies.last()) {
                (FetchStageFacts::Create(_, _), FetchReplyFacts::Done) => 0,
                (FetchStageFacts::Pull(_, _, _), FetchReplyFacts::Chunk(n)) => so_far + n,
                _ => so_far,
            }
        }
    }

    /// What was last found where a file is to go.
    pub open spec fn found(self, replies: Seq<FetchReplyFacts>) -> Option<u64>
        decreases replies.len(),
    {
        if replies.len() == 0 {
            None
        } else {
            match (self.run(replies.drop_last()).stage, replies.last()) {
                (FetchStageFacts::Probe(_, _), FetchReplyFacts::Size(size)) => size,
                _ => self.found(replies.drop_last()),
            }
        }
    }
}

/// The file that is being fetched, once it is known to be missing.
pub open spec fn fetching(stage: FetchStageFacts) -> Option<FileFacts> {
    match stage {
        FetchStageFacts::MakeDir(_, f) => Some(f),
        FetchStageFacts::Request(_, f) => Some(f),
        FetchStageFacts::Create(_, f) => Some(f),
        FetchStageFacts::Pull(_, f, _) => Some(f),
        FetchStageFacts::Discard(_, f, _) => Some(f),
        FetchStageFacts::Rename(_, f, _) => Some(f),
        _ => None,
    }
}

/// The number of the suffix that is being seen to.
pub open spec fn position(stage: FetchStageFacts) -> Option<int> {
    match stage {
        FetchStageFacts::Probe(i, _) => Some(i),
        FetchStageFacts::MakeDir(i, _) => Some(i),
        FetchStageFacts::Request(i, _) => Some(i),
        FetchStageFacts::Create(i, _) => Some(i),
        FetchStageFacts::Pull(i, _, _) => Some(i),
        FetchStageFacts::Discard(i, _, _) => Some(i),
        FetchStageFacts::Rename(i, _, _) => Some(i),
        _ => None,
    }
}

/// What is due from the `i`th suffix on is the first file from there on that the
/// release offers, or the end where it offers none.
spec fn due_is_first(release: JsonTree, suffixes: Seq<Seq<char>>, i: int) -> bool {
    match due(release, suffixes, i) {
        FetchStageFacts::Probe(j, f) => {
            &&& i <= j < suffixes.len()
            &&& payload_offer(release, suffixes[j]) == Some((f.url, f.name, f.size))
            &&& forall|k: int|
                i <= k < j ==> payload_offer(release, #[trigger] suffixes[k]) is None
        },
        FetchStageFacts::Done(Ok(_)) => i >= 0 ==> forall|k: int|
            i <= k < suffixes.len() ==> payload_offer(release, #[trigger] suffixes[k]) is None,
        _ => false,
    }
}

proof fn lemma_due(release: JsonTree, suffixes: Seq<Seq<char>>, i: int)
    ensures
        due_is_first(release, suffixes, i),
    decreases suffixes.len() - i,
{
    if 0 <= i < suffixes.len() && payload_offer(release, suffixes[i]) is None {
        lemma_due(release, suffixes, i + 1);
    }
}

/// Wherever a reply brings a fetch to the next file, that is the first one due.
proof fn lemma_dues(before: FetchFacts, reply: FetchReplyFacts)
    ensures
        match before.stage {
            FetchStageFacts::Probe(i, _) => due_is_first(before.release, before.suffixes, i + 1),
            FetchStageFacts::Rename(i, _, _) => due_is_first(
                before.release,
                before.suffixes,
                i + 1,
            ),
            FetchStageFacts::ReadRelease => reply matches FetchReplyFacts::Body(body)
                ==> document_in(body) matches Some(doc) ==> due_is_first(doc, before.suffixes, 0),
            _ => true,
        },
{
    match before.stage {
        FetchStageFacts::Probe(i, _) => lemma_due(before.release, before.suffixes, i + 1),
        FetchStageFacts::Rename(i, _, _) => lemma_due(before.release, before.suffixes, i + 1),
        FetchStageFacts::ReadRelease => {
            match reply {
                FetchReplyFacts::Body(body) => {
                    match document_in(body) {
                        Some(doc) => lemma_due(doc, before.suffixes, 0),
                        None => {},
                    }
                },
                _ => {},
            }
        },
        _ => {},
    }
}

/// A half file never takes the place of a whole one: whatever replies come, the
/// new file is moved into place only once as many bytes have been appended to it
/// as the release says (any number, where it does not say); and it is thrown away
/// only where the number is another one.
pub proof fn law_only_whole_files(
    game: GameFacts,
    platform: Platform,
    home: Option<Seq<char>>,
    replies: Seq<FetchReplyFacts>,
)
    ensures
        ({
            let start = fetch_for(game, platform, home);
            match start.run(replies).stage {
                FetchStageFacts::Pull(_, _, w) => w == start.appended(replies),
                FetchStageFacts::Rename(_, f, w) => w == start.appended(replies) && (f.size != 0
                    ==> start.appended(replies) == f.size),
                FetchStageFacts::Discard(_, f, w) => w == start.appended(replies) && f.size != 0
                    && start.appended(replies) != f.size,
                _ => true,
            }
        }),
    decreases replies.len(),
{
    if replies.len() > 0 {
        law_only_whole_files(game, platform, home, replies.drop_last());
        let start = fetch_for(game, platform, home);
        let before = start.run(replies.drop_last());
        lemma_dues(before, replies.last());
    }
}

/// A payload comes down only when it is missing: whatever replies come, a file is
/// created, fetched or moved only where what was found in its place was not the
/// file that the release describes.
pub proof fn law_fetched_only_when_missing(
    game: GameFacts,
    platform: Platform,
    home: Option<Seq<char>>,
    replies: Seq<FetchReplyFacts>,
)
    ensures
        ({
            let start = fetch_for(game, platform, home);
            fetching(start.run(replies).stage) matches Some(f) ==> (match start.found(replies) {
                Some(len) => f.size != 0 && len != f.size,
                None => true,
            })
        }),
    decreases replies.len(),
{
    if replies.len() > 0 {
        law_fetched_only_when_missing(game, platform, home, replies.drop_last());
        let start = fetch_for(game, platform, home);
        let before = start.run(replies.drop_last());
        lemma_dues(before, replies.last());
    }
}

/// The files are seen to in order, each at most once: no reply brings a fetch
/// back to an earlier one, and once it has ended it stays ended.
pub proof fn law_files_in_order(fetch: FetchFacts, reply: FetchReplyFacts)
    ensures
        position(fetch.stage) matches Some(i) ==> position(fetch.after(reply).stage) matches Some(j)
            ==> i <= j && (i == j || fetch.after(reply).stage is Probe),
        position(fetch.stage) is Some && fetch.after(reply).stage is Probe
            && fetch.after(reply).stage != fetch.stage ==> position(fetch.after(reply).stage)->0
            > position(fetch.stage)->0,
        fetch.stage is Done ==> fetch.after(reply) == fetch,
{
    lemma_dues(fetch, reply);
}

/// What is moved into place is found there by the next fetch, and what was cut
/// short is fetched again: where the release gives a size, a file is whole with
/// exactly that many bytes, and there with exactly that length.
pub proof fn law_fetched_once(file: FileFacts, len: u64)
    ensures
        already_there(file, Some(len)) <==> file.size == 0 || len == file.size,
        !already_there(file, None),
        whole(file, len as int) <==> file.size == 0 || len == file.size,
{
}

/// A game without a payload has nothing fetched for it, and one whose payload's
/// release is not there is none the worse.
pub proof fn law_no_payload_no_error(
    game: GameFacts,
    platform: Platform,
    home: Option<Seq<char>>,
    code: u16,
)
    ensures
        game.payload is None ==> fetch_for(game, platform, home).outcome() == Some(
            Ok::<(), Seq<char>>(()),
        ),
        game.payload is Some && !success(code) ==> fetch_for(game, platform, home).after(
            FetchReplyFacts::Status(code),
        ).outcome() == Some(Ok::<(), Seq<char>>(())),
{
}

impl FetchFacts {
    /// The numbers of the suffixes whose files were found in place or moved there.
    pub open spec fn settled(self, replies: Seq<FetchReplyFacts>) -> Set<int>
        decreases replies.len(),
    {
        if replies.len() == 0 {
            Set::empty()
        } else {
            let so_far = self.settled(replies.drop_last());
            match (self.run(replies.drop_last()).stage, replies.last()) {
                (FetchStageFacts::Probe(i, f), FetchReplyFacts::Size(size)) => if already_there(
                    f,
                    size,
                ) {
                    so_far.insert(i)
                } else {
                    so_far
                },
                (FetchStageFacts::Rename(i, _, _), FetchReplyFacts::Done) => so_far.insert(i),
                _ => so_far,
            }
        }
    }

    /// Every file that the release offers under the suffixes before the `n`th is settled.
    pub open spec fn seen_to(self, n: int, settled: Set<int>) -> bool {
        forall|k: int|
            0 <= k < n && payload_offer(self.release, #[trigger] self.suffixes[k]) is Some
                ==> settled.contains(k)
    }

    /// What holds of a fetch at every stage.
    spec fn on_course(self, settled: Set<int>) -> bool {
        match self.stage {
            FetchStageFacts::AskRelease => self.release == JsonTree::Null,
            FetchStageFacts::ReadRelease => self.release == JsonTree::Null,
            FetchStageFacts::Done(Ok(_)) => self.seen_to(self.suffixes.len() as int, settled),
            FetchStageFacts::Done(Err(_)) => true,
            _ => 0 <= position(self.stage)->0 < self.suffixes.len() && self.seen_to(
                position(self.stage)->0,
                settled,
            ),
        }
    }
}

proof fn lemma_on_course(
    game: GameFacts,
    platform: Platform,
    home: Option<Seq<char>>,
    replies: Seq<FetchReplyFacts>,
)
    ensures
        ({
            let start = fetch_for(game, platform, home);
            start.run(replies).on_course(start.settled(replies)) && start.run(replies).suffixes
                == start.suffixes
        }),
    decreases replies.len(),
{
    let start = fetch_for(game, platform, home);
    if replies.len() > 0 {
        let rest = replies.drop_last();
        lemma_on_course(game, platform, home, rest);
        let before = start.run(rest);
        let after = start.run(replies);
        let settled = start.settled(rest);
        assert(before.on_course(settled));
        lemma_dues(before, replies.last());
        assert(after.on_course(start.settled(replies)));
    }
}

/// A fetch that succeeds has seen to every file: each one that the release offers
/// was found in place or was moved there whole.
pub proof fn law_every_file_seen_to(
    game: GameFacts,
    platform: Platform,
    home: Option<Seq<char>>,
    replies: Seq<FetchReplyFacts>,
)
    ensures
        ({
            let start = fetch_for(game, platform, home);
            let end = start.run(replies);
            end.outcome() == Some(Ok::<(), Seq<char>>(())) ==> end.seen_to(
                start.suffixes.len() as int,
                start.settled(replies),
            )
        }),
{
    lemma_on_course(game, platform, home, replies);
}

// ---- What is on disk -----------------------------------------------------------------------------

/// The file that a stage is about.
pub open spec fn file_at(stage: FetchStageFacts) -> Option<FileFacts> {
    match stage {
        FetchStageFacts::Probe(_, f) => Some(f),
        _ => fetching(stage),
    }
}

impl FetchFacts {
    /// The sizes of the files, by their places, once the replies have come that
    /// say what was done to them.
    pub open spec fn disk(
        self,
        disk: Map<Seq<Seq<char>>, int>,
        replies: Seq<FetchReplyFacts>,
    ) -> Map<Seq<Seq<char>>, int>
        decreases replies.len(),
    {
        if replies.len() == 0 {
            disk
        } else {
            let so_far = self.disk(disk, replies.drop_last());
            let before = self.run(replies.drop_last());
            match (before.stage, replies.last()) {
                (FetchStageFacts::Create(_, f), FetchReplyFacts::Done) => so_far.insert(
                    before.place_of(part_name(f.name)),
                    0,
                ),
                (FetchStageFacts::Pull(_, f, _), FetchReplyFacts::Chunk(n)) => so_far.insert(
                    before.place_of(part_name(f.name)),
                    so_far[before.place_of(part_name(f.name))] + n,
                ),
                (FetchStageFacts::Discard(_, f, _), FetchReplyFacts::Done) => so_far.remove(
                    before.place_of(part_name(f.name)),
                ),
                (FetchStageFacts::Rename(_, f, _), FetchReplyFacts::Done) => so_far.remove(
                    before.place_of(part_name(f.name)),
                ).insert(before.place_of(f.name), so_far[before.place_of(part_name(f.name))]),
                _ => so_far,
            }
        }
    }

    /// Every look at a file tells the size that it has on that disk.
    pub open spec fn truthful(
        self,
        disk: Map<Seq<Seq<char>>, int>,
        replies: Seq<FetchReplyFacts>,
    ) -> bool
        decreases replies.len(),
    {
        replies.len() == 0 || {
            let so_far = self.disk(disk, replies.drop_last());
            let before = self.run(replies.drop_last());
            &&& self.truthful(disk, replies.drop_last())
            &&& match (before.stage, replies.last()) {
                (FetchStageFacts::Probe(_, f), FetchReplyFacts::Size(Some(n))) => {
                    so_far.contains_key(before.place_of(f.name)) && so_far[before.place_of(f.name)]
                        == n
                },
                (FetchStageFacts::Probe(_, f), FetchReplyFacts::Size(None)) => {
                    !so_far.contains_key(before.place_of(f.name))
                },
                _ => true,
            }
        }
    }

    /// The file under the `k`th suffix is in place, as the release describes it.
    pub open spec fn in_place(self, k: int, disk: Map<Seq<Seq<char>>, int>) -> bool {
        payload_offer(self.release, self.suffixes[k]) matches Some((url, name, size))
            && disk.contains_key(self.place_of(name)) && whole(
            FileFacts { url, name, size },
            disk[self.place_of(name)],
        )
    }

    /// The files that have been settled come before the one that the fetch is at
    /// and are in place, and a file that is being fetched is not.
    spec fn kept(self, settled: Set<int>, disk: Map<Seq<Seq<char>>, int>) -> bool {
        &&& forall|k: int| #[trigger]
            settled.contains(k) ==> 0 <= k < self.suffixes.len() && self.in_place(k, disk) && (
            position(self.stage) matches Some(i) ==> k < i)
        &&& fetching(self.stage) matches Some(f) ==> !(disk.contains_key(self.place_of(f.name))
            && whole(f, disk[self.place_of(f.name)]))
    }

    /// The file that is coming has on disk the bytes that have been counted.
    spec fn counted(self, disk: Map<Seq<Seq<char>>, int>) -> bool {
        match self.stage {
            FetchStageFacts::Pull(_, f, w) => disk.contains_key(self.place_of(part_name(f.name)))
                && disk[self.place_of(part_name(f.name))] == w,
            FetchStageFacts::Rename(_, f, w) => disk.contains_key(
                self.place_of(part_name(f.name)),
            ) && disk[self.place_of(part_name(f.name))] == w && whole(f, w),
            _ => true,
        }
    }

    /// The place is that of the file under the `k`th suffix.
    pub open spec fn is_target(self, k: int, at: Seq<Seq<char>>) -> bool {
        payload_offer(self.release, self.suffixes[k]) matches Some((_, name, _)) && at
            == self.place_of(name)
    }

    /// The place is that of the file under the `k`th suffix while it is not whole.
    pub open spec fn is_part(self, k: int, at: Seq<Seq<char>>) -> bool {
        payload_offer(self.release, self.suffixes[k]) matches Some((_, name, _)) && at
            == self.place_of(part_name(name))
    }

    /// The place is that of some file while it is not whole.
    pub open spec fn some_part(self, at: Seq<Seq<char>>) -> bool {
        exists|k: int| 0 <= k < self.suffixes.len() && #[trigger] self.is_part(k, at)
    }

    /// The place is that of some file, which is there as the release describes it.
    pub open spec fn some_in_place(self, at: Seq<Seq<char>>, disk: Map<Seq<Seq<char>>, int>) -> bool {
        exists|k: int|
            0 <= k < self.suffixes.len() && #[trigger] self.is_target(k, at) && self.in_place(
                k,
                disk,
            )
    }
}

/// There is the same at the place on both disks.
pub open spec fn same_at(
    a: Map<Seq<Seq<char>>, int>,
    b: Map<Seq<Seq<char>>, int>,
    at: Seq<Seq<char>>,
) -> bool {
    a.contains_key(at) == b.contains_key(at) && (a.contains_key(at) ==> a[at] == b[at])
}

/// What a release offers fits into one folder: files of one name do not have two
/// sizes, and no file has the name that a later one has while it is not whole.
pub open spec fn consistent(release: JsonTree, suffixes: Seq<Seq<char>>) -> bool {
    forall|i: int, j: int|
        0 <= i < suffixes.len() && 0 <= j < suffixes.len() ==> (match (
            payload_offer(release, #[trigger] suffixes[i]),
            payload_offer(release, #[trigger] suffixes[j]),
        ) {
            (Some((_, a, m)), Some((_, b, n))) => {
                &&& a == b ==> m == n || m == 0 || n == 0
                &&& i < j ==> a != part_name(b)
            },
            _ => true,
        })
}

/// What no reply changes, and what it changes once.
proof fn lemma_run_keeps(start: FetchFacts, replies: Seq<FetchReplyFacts>)
    requires
        replies.len() > 0,
    ensures
        ({
            let before = start.run(replies.drop_last());
            let after = start.run(replies);
            &&& after.suffixes == before.suffixes
            &&& after.dir == before.dir
            &&& after.release == before.release || before.stage is ReadRelease
        }),
{
}

/// The file that a fetch is at is the one that the release offers there.
proof fn lemma_at_offer(
    game: GameFacts,
    platform: Platform,
    home: Option<Seq<char>>,
    replies: Seq<FetchReplyFacts>,
)
    ensures
        ({
            let start = fetch_for(game, platform, home);
            let fetch = start.run(replies);
            &&& fetch.dir == start.dir
            &&& file_at(fetch.stage) matches Some(f) ==> payload_offer(
                fetch.release,
                fetch.suffixes[position(fetch.stage)->0],
            ) == Some((f.url, f.name, f.size))
            &&& fetch.stage is AskRelease || fetch.stage is ReadRelease ==> start.settled(replies)
                == Set::<int>::empty()
        }),
    decreases replies.len(),
{
    if replies.len() > 0 {
        let start = fetch_for(game, platform, home);
        lemma_at_offer(game, platform, home, replies.drop_last());
        lemma_dues(start.run(replies.drop_last()), replies.last());
    }
}

/// A file's place is its own, and not that of another file; nor is it its place
/// while it is not whole.
proof fn lemma_places(fetch: FetchFacts, a: Seq<char>, b: Seq<char>)
    ensures
        fetch.place_of(a) == fetch.place_of(b) ==> a == b,
        fetch.place_of(b) != fetch.place_of(part_name(b)),
{
    reveal_strlit(".part");
    assert(fetch.place_of(a).last() == a);
    assert(fetch.place_of(b).last() == b);
    assert(fetch.place_of(part_name(b)).last() == part_name(b));
    assert(part_name(b).len() == b.len() + 5);
}

proof fn lemma_counted(
    game: GameFacts,
    platform: Platform,
    home: Option<Seq<char>>,
    disk: Map<Seq<Seq<char>>, int>,
    replies: Seq<FetchReplyFacts>,
)
    ensures
        ({
            let start = fetch_for(game, platform, home);
            let fetch = start.run(replies);
            &&& fetch.counted(start.disk(disk, replies))
            &&& fetch.stage is AskRelease || fetch.stage is ReadRelease ==> start.disk(
                disk,
                replies,
            ) == disk
        }),
    decreases replies.len(),
{
    if replies.len() > 0 {
        let start = fetch_for(game, platform, home);
        lemma_counted(game, platform, home, disk, replies.drop_last());
        lemma_dues(start.run(replies.drop_last()), replies.last());
    }
}

proof fn lemma_kept(
    game: GameFacts,
    platform: Platform,
    home: Option<Seq<char>>,
    disk: Map<Seq<Seq<char>>, int>,
    replies: Seq<FetchReplyFacts>,
)
    requires
        fetch_for(game, platform, home).truthful(disk, replies),
    ensures
        ({
            let start = fetch_for(game, platform, home);
            consistent(start.run(replies).release, start.suffixes) ==> start.run(replies).kept(
                start.settled(replies),
                start.disk(disk, replies),
            )
        }),
    decreases replies.len(),
{
    let start = fetch_for(game, platform, home);
    if replies.len() > 0 && consistent(start.run(replies).release, start.suffixes) {
        let rest = replies.drop_last();
        let before = start.run(rest);
        let after = start.run(replies);
        let d = start.disk(disk, rest);
        let e = start.disk(disk, replies);
        let old_settled = start.settled(rest);
        let settled = start.settled(replies);
        lemma_kept(game, platform, home, disk, rest);
        lemma_counted(game, platform, home, disk, rest);
        lemma_run_keeps(start, replies);
        lemma_on_course(game, platform, home, rest);
        lemma_on_course(game, platform, home, replies);
        lemma_at_offer(game, platform, home, rest);
        lemma_at_offer(game, platform, home, replies);
        lemma_dues(before, replies.last());
        match file_at(before.stage) {
            Some(f) => lemma_places(before, f.name, f.name),
            None => {},
        }
        if before.stage is ReadRelease {
            assert(settled =~= Set::<int>::empty());
        } else {
            assert(before.kept(old_settled, d));
            assert forall|k: int| #[trigger] settled.contains(k) implies 0 <= k
                < after.suffixes.len() && after.in_place(k, e) && (position(after.stage) matches Some(
                i,
            ) ==> k < i) by {
                if old_settled.contains(k) {
                    assert(before.in_place(k, d));
                    let (url, name, size) = payload_offer(before.release, before.suffixes[k])->0;
                    match file_at(before.stage) {
                        Some(f) => {
                            let i = position(before.stage)->0;
                            assert(before.suffixes[i] == start.suffixes[i]);
                            assert(before.suffixes[k] == start.suffixes[k]);
                            lemma_places(before, name, f.name);
                            lemma_places(before, name, part_name(f.name));
                        },
                        None => {},
                    }
                }
            }
        }
    }
}

/// A fetch of a release whose files are all in place leaves the disk alone.
proof fn lemma_nothing_to_fetch(
    game: GameFacts,
    platform: Platform,
    home: Option<Seq<char>>,
    disk: Map<Seq<Seq<char>>, int>,
    settled: FetchFacts,
    replies: Seq<FetchReplyFacts>,
)
    requires
        settled.suffixes == fetch_for(game, platform, home).suffixes,
        settled.dir == fetch_for(game, platform, home).dir,
        forall|k: int|
            0 <= k < settled.suffixes.len() && payload_offer(
                settled.release,
                #[trigger] settled.suffixes[k],
            ) is Some ==> settled.in_place(k, disk),
        fetch_for(game, platform, home).truthful(disk, replies),
        ({
            let release = fetch_for(game, platform, home).run(replies).release;
            release == JsonTree::Null || release == settled.release
        }),
    ensures
        fetching(fetch_for(game, platform, home).run(replies).stage) is None,
        fetch_for(game, platform, home).disk(disk, replies) == disk,
        fetch_for(game, platform, home).run(replies).outcome() matches Some(Err(_)) ==> fetch_for(
            game,
            platform,
            home,
        ).run(replies).release == JsonTree::Null,
    decreases replies.len(),
{
    let start = fetch_for(game, platform, home);
    if replies.len() > 0 {
        let rest = replies.drop_last();
        let before = start.run(rest);
        lemma_run_keeps(start, replies);
        lemma_on_course(game, platform, home, rest);
        lemma_at_offer(game, platform, home, rest);
        lemma_dues(before, replies.last());
        lemma_nothing_to_fetch(game, platform, home, disk, settled, rest);
        match before.stage {
            FetchStageFacts::Probe(i, f) => {
                assert(before.suffixes[i] == settled.suffixes[i]);
                assert(settled.in_place(i, disk));
                assert(before.place_of(f.name) == settled.place_of(f.name));
            },
            _ => {},
        }
    }
}

/// A payload comes down once: after a fetch that succeeded, a fetch of the same
/// release that finds the disk as the first one left it downloads nothing, however
/// far it comes, and changes nothing on the disk; and once it has read the release it
/// can end in nothing but success. (This is of a release whose files fit into one
/// folder.)
pub proof fn law_second_fetch_downloads_nothing(
    game: GameFacts,
    platform: Platform,
    home: Option<Seq<char>>,
    disk: Map<Seq<Seq<char>>, int>,
    first: Seq<FetchReplyFacts>,
    second: Seq<FetchReplyFacts>,
)
    requires
        ({
            let start = fetch_for(game, platform, home);
            let left = start.disk(disk, first);
            &&& start.truthful(disk, first)
            &&& start.run(first).outcome() == Some(Ok::<(), Seq<char>>(()))
            &&& consistent(start.run(first).release, start.suffixes)
            &&& start.truthful(left, second)
            &&& start.run(second).release == JsonTree::Null || start.run(second).release
                == start.run(first).release
        }),
    ensures
        ({
            let start = fetch_for(game, platform, home);
            let left = start.disk(disk, first);
            &&& fetching(start.run(second).stage) is None
            &&& !(start.run(second).action() is Download)
            &&& start.disk(left, second) == left
            &&& start.run(second).release != JsonTree::Null ==> !(start.run(second).outcome() matches Some(
                Err(_),
            ))
        }),
{
    let start = fetch_for(game, platform, home);
    let end = start.run(first);
    let left = start.disk(disk, first);
    lemma_kept(game, platform, home, disk, first);
    lemma_on_course(game, platform, home, first);
    lemma_at_offer(game, platform, home, first);
    assert forall|k: int|
        0 <= k < end.suffixes.len() && payload_offer(end.release, #[trigger] end.suffixes[k])
            is Some implies end.in_place(k, left) by {
        assert(start.settled(first).contains(k));
    }
    lemma_nothing_to_fetch(game, platform, home, left, end, second);
}

/// A half file is never left where a whole one belongs: wherever a fetch stands,
/// whatever replies have come, there is at every place of the disk what was there
/// before; or the place is one for a file that is not whole; or it is that of a
/// file that the release offers, and the file is there as the release describes it.
pub proof fn law_disk_accounted_for(
    game: GameFacts,
    platform: Platform,
    home: Option<Seq<char>>,
    disk: Map<Seq<Seq<char>>, int>,
    replies: Seq<FetchReplyFacts>,
    at: Seq<Seq<char>>,
)
    ensures
        ({
            let start = fetch_for(game, platform, home);
            let fetch = start.run(replies);
            let now = start.disk(disk, replies);
            same_at(disk, now, at) || fetch.some_part(at) || fetch.some_in_place(at, now)
        }),
    decreases replies.len(),
{
    if replies.len() > 0 {
        let start = fetch_for(game, platform, home);
        let rest = replies.drop_last();
        let before = start.run(rest);
        let after = start.run(replies);
        let d = start.disk(disk, rest);
        let e = start.disk(disk, replies);
        law_disk_accounted_for(game, platform, home, disk, rest, at);
        lemma_counted(game, platform, home, disk, rest);
        lemma_run_keeps(start, replies);
        lemma_on_course(game, platform, home, rest);
        lemma_at_offer(game, platform, home, rest);
        match file_at(before.stage) {
            Some(f) => {
                let i = position(before.stage)->0;
                lemma_places(before, f.name, f.name);
                assert(before.is_part(i, before.place_of(part_name(f.name))));
                assert(before.is_target(i, before.place_of(f.name)));
                assert(after.is_part(i, before.place_of(part_name(f.name))));
                assert(after.is_target(i, before.place_of(f.name)));
            },
            None => {},
        }
        if !(before.stage is ReadRelease) {
            if before.some_part(at) {
                let k = choose|k: int|
                    0 <= k < before.suffixes.len() && #[trigger] before.is_part(k, at);
                assert(after.is_part(k, at));
            } else if before.some_in_place(at, d) {
                let k = choose|k: int|
                    0 <= k < before.suffixes.len() && #[trigger] before.is_target(k, at)
                        && before.in_place(k, d);
                assert(after.is_target(k, at));
                if same_at(d, e, at) {
                    assert(after.in_place(k, e));
                }
            }
        }
    }
}

/// The place where a file belongs, where no file has it for its place while it is
/// not whole, has on it at every moment what was there before the fetch, or the
/// file as the release describes it.
pub proof fn law_targets_untouched_or_whole(
    game: GameFacts,
    platform: Platform,
    home: Option<Seq<char>>,
    disk: Map<Seq<Seq<char>>, int>,
    replies: Seq<FetchReplyFacts>,
    name: Seq<char>,
)
    requires
        ({
            let fetch = fetch_for(game, platform, home).run(replies);
            forall|k: int|
                0 <= k < fetch.suffixes.len() ==> (payload_offer(
                    fetch.release,
                    #[trigger] fetch.suffixes[k],
                ) matches Some((_, other, _)) ==> name != part_name(other))
        }),
    ensures
        ({
            let start = fetch_for(game, platform, home);
            let fetch = start.run(replies);
            let now = start.disk(disk, replies);
            same_at(disk, now, start.place_of(name)) || fetch.some_in_place(
                start.place_of(name),
                now,
            )
        }),
{
    let start = fetch_for(game, platform, home);
    let fetch = start.run(replies);
    let at = start.place_of(name);
    law_disk_accounted_for(game, platform, home, disk, replies, at);
    lemma_at_offer(game, platform, home, replies);
    if fetch.some_part(at) {
        let k = choose|k: int| 0 <= k < fetch.suffixes.len() && #[trigger] fetch.is_part(k, at);
        let (_, other, _) = payload_offer(fetch.release, fetch.suffixes[k])->0;
        lemma_places(fetch, name, part_name(other));
    }
}

/// Whatever replies come, a file is created, deleted or moved away only at a place
/// for a file that is not whole, and moved only to where it belongs and only with
/// as many bytes appended to it as the release says.
pub proof fn law_only_parts_are_written(
    game: GameFacts,
    platform: Platform,
    home: Option<Seq<char>>,
    replies: Seq<FetchReplyFacts>,
)
    ensures
        ({
            let start = fetch_for(game, platform, home);
            let fetch = start.run(replies);
            match fetch.action() {
                FetchActionFacts::Create(at) => fetch.some_part(at),
                FetchActionFacts::Remove(at) => fetch.some_part(at),
                FetchActionFacts::Rename(from, to) => exists|k: int|
                    0 <= k < fetch.suffixes.len() && #[trigger] fetch.is_part(k, from)
                        && fetch.is_target(k, to) && (payload_offer(
                        fetch.release,
                        fetch.suffixes[k],
                    ) matches Some((url, name, size)) && whole(
                        FileFacts { url, name, size },
                        start.appended(replies),
                    )),
                _ => true,
            }
        }),
{
    let start = fetch_for(game, platform, home);
    let fetch = start.run(replies);
    lemma_on_course(game, platform, home, replies);
    lemma_at_offer(game, platform, home, replies);
    law_only_whole_files(game, platform, home, replies);
    match file_at(fetch.stage) {
        Some(f) => {
            let i = position(fetch.stage)->0;
            assert(fetch.is_part(i, fetch.place_of(part_name(f.name))));
            assert(fetch.is_target(i, fetch.place_of(f.name)));
            match fetch.action() {
                FetchActionFacts::Rename(from, to) => {
                    assert(fetch.is_part(i, from));
                    assert(fetch.is_target(i, to));
                    assert(whole(f, start.appended(replies)));
                },
                _ => {},
            }
        },
        None => {},
    }
}

// ---- Step by step --------------------------------------------------------------------------------

/// So many bytes in all.
pub open spec fn total(chunks: Seq<u64>) -> int
    decreases chunks.len(),
{
    if chunks.len() == 0 {
        0
    } else {
        total(chunks.drop_last()) + chunks.last()
    }
}

/// The replies that say that the bytes came.
pub open spec fn as_replies(chunks: Seq<u64>) -> Seq<FetchReplyFacts> {
    chunks.map_values(|n: u64| FetchReplyFacts::Chunk(n))
}

proof fn lemma_chunks(fetch: FetchFacts, i: int, f: FileFacts, w: int, chunks: Seq<u64>)
    requires
        fetch.stage == FetchStageFacts::Pull(i, f, w),
    ensures
        fetch.run(as_replies(chunks)) == fetch.at(FetchStageFacts::Pull(i, f, w + total(chunks))),
    decreases chunks.len(),
{
    if chunks.len() > 0 {
        lemma_chunks(fetch, i, f, w, chunks.drop_last());
        assert(as_replies(chunks).drop_last() =~= as_replies(chunks.drop_last()));
    }
}

/// However a file comes down, it is moved into place exactly where the chunks add
/// up to the size that the release gives (or it gives none); and otherwise what came
/// is deleted, and the fetch fails with both numbers.
pub proof fn law_download_kept_when_complete(
    fetch: FetchFacts,
    i: int,
    f: FileFacts,
    chunks: Seq<u64>,
    e: Seq<char>,
)
    requires
        fetch.stage == FetchStageFacts::Create(i, f),
    ensures
        ({
            let end = fetch.after(FetchReplyFacts::Done).run(as_replies(chunks)).after(
                FetchReplyFacts::End,
            );
            let dir = match fetch.dir {
                Some(parts) => parts,
                None => Seq::empty(),
            };
            let part = dir.push(f.name + ".part"@);
            if f.size == 0 || total(chunks) == f.size {
                end.action() == FetchActionFacts::Rename(part, dir.push(f.name))
            } else {
                let told = Some(
                    Err::<(), Seq<char>>(
                        "payload "@ + f.name + " arrived "@ + decimal(total(chunks) as nat)
                            + " bytes of "@ + decimal(f.size as nat),
                    ),
                );
                end.action() == FetchActionFacts::Remove(part) && end.after(
                    FetchReplyFacts::Done,
                ).outcome() == told && end.after(FetchReplyFacts::Failed(e)).outcome() == told
            }
        }),
{
    let pulling = fetch.after(FetchReplyFacts::Done);
    lemma_chunks(pulling, i, f, 0, chunks);
}

/// A file that is found is left alone exactly where its length is the size that
/// the release gives (or it gives none); it is fetched in every other case.
pub proof fn law_found_file_kept(fetch: FetchFacts, i: int, f: FileFacts, found: Option<u64>)
    requires
        fetch.stage == FetchStageFacts::Probe(i, f),
    ensures
        ({
            let next = fetch.after(FetchReplyFacts::Size(found));
            if (found matches Some(len) && (f.size == 0 || len == f.size)) {
                next == fetch.at(due(fetch.release, fetch.suffixes, i + 1))
            } else {
                next.action() == FetchActionFacts::MakeDir(
                    match fetch.dir {
                        Some(parts) => parts,
                        None => Seq::empty(),
                    },
                ) && next.stage == FetchStageFacts::MakeDir(i, f)
            }
        }),
{
}

/// A file is in place exactly where there is one of its name with the size that
/// the release gives (or it gives none).
pub proof fn law_in_place(fetch: FetchFacts, k: int, disk: Map<Seq<Seq<char>>, int>)
    ensures
        fetch.in_place(k, disk) <==> (payload_offer(fetch.release, fetch.suffixes[k]) matches Some(
            (_, name, size),
        ) && disk.contains_key(fetch.place_of(name)) && (size == 0 || disk[fetch.place_of(name)]
            == size)),
{
}

/// The fetch for a game asks for the release under the payload's own tag, goes by
/// the payload's own suffixes, and puts its files where the game keeps its own.
pub proof fn law_fetch_starts(game: GameFacts, platform: Platform, home: Option<Seq<char>>)
    ensures
        ({
            let fetch = fetch_for(game, platform, home);
            match game.payload {
                None => fetch.outcome() == Some(Ok::<(), Seq<char>>(())),
                Some(payload) => {
                    &&& fetch.action() == FetchActionFacts::Get(
                        "https://api.github.com/repos/"@ + game.repo + "/releases/tags/"@
                            + payload.tag,
                    )
                    &&& fetch.suffixes == payload.assets
                    &&& fetch.dir == (match home {
                        Some(h) => Some(
                            support_parts(platform, payload.support_dir, payload.into, h),
                        ),
                        None => None,
                    })
                },
            }
        }),
{
}

/// Once the release is read, the file that is looked for first is that of the first
/// suffix under which the release offers one; after the file of a suffix, that of the
/// next such suffix; and where there is none, the fetch has succeeded.
pub proof fn law_next_file(
    fetch: FetchFacts,
    body: Seq<u8>,
    release: JsonTree,
    after: int,
    f: FileFacts,
    written: int,
    j: int,
)
    requires
        document_in(body) == Some(release),
        fetch.dir is Some,
        0 <= after <= j <= fetch.suffixes.len(),
        forall|k: int|
            after <= k < j ==> payload_offer(release, #[trigger] fetch.suffixes[k]) is None,
        j < fetch.suffixes.len() ==> payload_offer(release, fetch.suffixes[j]) is Some,
    ensures
        ({
            let read = fetch.at(FetchStageFacts::ReadRelease).after(FetchReplyFacts::Body(body));
            let moved = (FetchFacts { release, ..fetch }).at(
                FetchStageFacts::Rename(after - 1, f, written),
            ).after(FetchReplyFacts::Done);
            &&& after == 0 ==> read.stage == moved.stage && read.release == release
            &&& if j < fetch.suffixes.len() {
                moved.stage matches FetchStageFacts::Probe(k, g) && k == j && payload_offer(
                    release,
                    fetch.suffixes[j],
                ) == Some((g.url, g.name, g.size))
            } else {
                moved.outcome() matches Some(Ok(_))
            }
        }),
{
    lemma_due(release, fetch.suffixes, after);
    let first = due(release, fetch.suffixes, after);
    let moved = (FetchFacts { release, ..fetch }).at(
        FetchStageFacts::Rename(after - 1, f, written),
    ).after(FetchReplyFacts::Done);
    assert(moved.stage == first);
    let read = fetch.at(FetchStageFacts::ReadRelease).after(FetchReplyFacts::Body(body));
    assert(after == 0 ==> read.stage == first && read.release == release);
    match first {
        FetchStageFacts::Probe(k, g) => {
            if k < j {
                assert(payload_offer(release, fetch.suffixes[k]) is None);
            }
            if j < k {
                assert(payload_offer(release, fetch.suffixes[j]) is None);
            }
        },
        _ => {
            if j < fetch.suffixes.len() {
                assert(payload_offer(release, fetch.suffixes[j]) is None);
            }
        },
    }
}

/// A fetch step by step: what is to be done at each stage, and what each reply
/// leads to. A reply that does not belong to what was to be done changes nothing.
pub proof fn law_fetch_step_by_step(fetch: FetchFacts, reply: FetchReplyFacts)
    ensures
        ({
            let next = fetch.after(reply);
            let dir = match fetch.dir {
                Some(parts) => parts,
                None => Seq::empty(),
            };
            match fetch.stage {
                FetchStageFacts::AskRelease => {
                    &&& fetch.action() == FetchActionFacts::Get(
                        "https://api.github.com/repos/"@ + fetch.repo + "/releases/tags/"@
                            + fetch.tag,
                    )
                    &&& match reply {
                        FetchReplyFacts::Status(code) => if 200 <= code && code <= 299 {
                            next.action() is ReadBody
                        } else {
                            next.outcome() == Some(Ok::<(), Seq<char>>(()))
                        },
                        FetchReplyFacts::Failed(e) => next.outcome() == Some(
                            Err::<(), Seq<char>>(e),
                        ),
                        _ => next == fetch,
                    }
                },
                FetchStageFacts::ReadRelease => {
                    &&& fetch.action() is ReadBody
                    &&& match reply {
                        FetchReplyFacts::Body(body) => if document_in(body) is None {
                            next.outcome() == Some(
                                Err::<(), Seq<char>>("error decoding response body"@),
                            )
                        } else if fetch.dir is None {
                            next.outcome() == Some(
                                Err::<(), Seq<char>>(
                                    "could not find the game's support directory"@,
                                ),
                            )
                        } else {
                            Some(next.release) == document_in(body)
                        },
                        FetchReplyFacts::Failed(e) => next.outcome() == Some(
                            Err::<(), Seq<char>>(e),
                        ),
                        _ => next == fetch,
                    }
                },
                FetchStageFacts::Probe(_, f) => {
                    &&& fetch.action() == FetchActionFacts::Probe(dir.push(f.name))
                    &&& !(reply is Size) ==> next == fetch
                },
                FetchStageFacts::MakeDir(_, f) => {
                    &&& fetch.action() == FetchActionFacts::MakeDir(dir)
                    &&& match reply {
                        FetchReplyFacts::Done => next.action() == FetchActionFacts::Download(f.url),
                        FetchReplyFacts::Failed(e) => next.outcome() == Some(
                            Err::<(), Seq<char>>(e),
                        ),
                        _ => next == fetch,
                    }
                },
                FetchStageFacts::Request(_, f) => {
                    &&& fetch.action() == FetchActionFacts::Download(f.url)
                    &&& match reply {
                        FetchReplyFacts::Status(code) => if 200 <= code && code <= 299 {
                            next.action() == FetchActionFacts::Create(dir.push(f.name + ".part"@))
                        } else {
                            next.outcome() == Some(
                                Err::<(), Seq<char>>(
                                    "payload download returned "@ + status_shown(code),
                                ),
                            )
                        },
                        FetchReplyFacts::Failed(e) => next.outcome() == Some(
                            Err::<(), Seq<char>>(e),
                        ),
                        _ => next == fetch,
                    }
                },
                FetchStageFacts::Create(_, f) => {
                    &&& fetch.action() == FetchActionFacts::Create(dir.push(f.name + ".part"@))
                    &&& match reply {
                        FetchReplyFacts::Done => next.action() is Pull,
                        FetchReplyFacts::Failed(e) => next.outcome() == Some(
                            Err::<(), Seq<char>>(e),
                        ),
                        _ => next == fetch,
                    }
                },
                FetchStageFacts::Pull(_, f, w) => {
                    &&& fetch.action() is Pull
                    &&& match reply {
                        FetchReplyFacts::Chunk(_) => next.action() is Pull,
                        FetchReplyFacts::End => next.action() is Rename || next.action() is Remove,
                        FetchReplyFacts::Failed(e) => next.outcome() == Some(
                            Err::<(), Seq<char>>(e),
                        ),
                        _ => next == fetch,
                    }
                },
                FetchStageFacts::Rename(_, f, _) => {
                    &&& fetch.action() == FetchActionFacts::Rename(
                        dir.push(f.name + ".part"@),
                        dir.push(f.name),
                    )
                    &&& match reply {
                        FetchReplyFacts::Done => true,
                        FetchReplyFacts::Failed(e) => next.outcome() == Some(
                            Err::<(), Seq<char>>(e),
                        ),
                        _ => next == fetch,
                    }
                },
                FetchStageFacts::Discard(_, f, _) => {
                    &&& fetch.action() == FetchActionFacts::Remove(dir.push(f.name + ".part"@))
                    &&& !(reply is Done || reply is Failed) ==> next == fetch
                },
                FetchStageFacts::Done(r) => fetch.action() is Nothing && fetch.outcome() == Some(r)
                    && next == fetch,
            }
        }),
{
}

/// What is to be done and what came of it is taken as it is given.
pub proof fn law_fetch_words(
    text: String,
    p: Vec<String>,
    q: Vec<String>,
    status: HttpStatus,
    body: Vec<u8>,
    size: Option<u64>,
    n: u64,
)
    ensures
        FetchAction::Get(text)@ == FetchActionFacts::Get(text@),
        FetchAction::ReadBody@ == FetchActionFacts::ReadBody,
        FetchAction::Probe(p)@ == FetchActionFacts::Probe(texts(p@)),
        FetchAction::MakeDir(p)@ == FetchActionFacts::MakeDir(texts(p@)),
        FetchAction::Download(text)@ == FetchActionFacts::Download(text@),
        FetchAction::Create(p)@ == FetchActionFacts::Create(texts(p@)),
        FetchAction::Pull@ == FetchActionFacts::Pull,
        FetchAction::Remove(p)@ == FetchActionFacts::Remove(texts(p@)),
        FetchAction::Rename(p, q)@ == FetchActionFacts::Rename(texts(p@), texts(q@)),
        FetchAction::Nothing@ == FetchActionFacts::Nothing,
        FetchReply::Done@ == FetchReplyFacts::Done,
        FetchReply::Failed(text)@ == FetchReplyFacts::Failed(text@),
        FetchReply::Status(status)@ == FetchReplyFacts::Status(status.code()),
        FetchReply::Body(body)@ == FetchReplyFacts::Body(body@),
        FetchReply::Size(size)@ == FetchReplyFacts::Size(size),
        FetchReply::Chunk(n)@ == FetchReplyFacts::Chunk(n),
        FetchReply::End@ == FetchReplyFacts::End,
        outcome_told(Ok(())) == Ok::<(), Seq<char>>(()),
        outcome_told(Err(text)) == Err::<(), Seq<char>>(text@),
{
}

/// Bytes can be counted as long as their number fits into sixty-four bits, and
/// nothing else stands in the way of a reply.
pub proof fn law_room(fetch: FetchFacts, reply: FetchReplyFacts)
    ensures
        fetch.fits(reply) <==> (match (fetch.stage, reply) {
            (FetchStageFacts::Pull(_, _, w), FetchReplyFacts::Chunk(n)) => w + n
                <= 0xffff_ffff_ffff_ffff,
            _ => true,
        }),
{
}

/// While a file is fetched it stays the same file, under the same suffix and of the
/// same size; and no reply changes where a fetch asks, looks or writes.
pub proof fn law_file_stays_the_same(fetch: FetchFacts, reply: FetchReplyFacts)
    ensures
        ({
            let next = fetch.after(reply);
            &&& next.repo == fetch.repo
            &&& next.tag == fetch.tag
            &&& next.suffixes == fetch.suffixes
            &&& next.dir == fetch.dir
            &&& !(fetch.stage is ReadRelease) ==> next.release == fetch.release
            &&& fetching(fetch.stage) is Some && fetching(next.stage) is Some ==> fetching(
                next.stage,
            ) == fetching(fetch.stage) && position(next.stage) == position(fetch.stage)
        }),
{
    lemma_dues(fetch, reply);
}

} // verus!
