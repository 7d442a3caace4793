//! The installing of a game, step by step: the install says what is to be done
//! next, and is told what came of it. The folder is emptied before anything is
//! unpacked, and the version is stamped after everything else.

use crate::catalog::{catalog_row, game_by_slug};
use crate::folders::game_dir;
use crate::http::{status_shown, success, HttpStatus};
use crate::payload::outcome_told;
use crate::platform::Platform;
use crate::text::{ends_with, has_suffix, joined_pair, texts};
use vstd::prelude::*;

verus! {

/// How far an install has come.
pub enum InstallStage {
    FetchPayload,
    Download,
    ReadBody,
    ProbeDir,
    RemoveDir,
    CreateDir,
    WriteArchive,
    RunTar,
    /// The archive has been unpacked, or not, and is to go.
    RemoveArchive(bool),
    UnpackZip,
    Unquarantine,
    Stamp,
    Done(Result<(), String>),
}

pub enum InstallStageFacts {
    FetchPayload,
    Download,
    ReadBody,
    ProbeDir,
    RemoveDir,
    CreateDir,
    WriteArchive,
    RunTar,
    RemoveArchive(bool),
    UnpackZip,
    Unquarantine,
    Stamp,
    Done(Result<(), Seq<char>>),
}

impl View for InstallStage {
    type V = InstallStageFacts;

    open spec fn view(&self) -> InstallStageFacts {
        match *self {
            InstallStage::FetchPayload => InstallStageFacts::FetchPayload,
            InstallStage::Download => InstallStageFacts::Download,
            InstallStage::ReadBody => InstallStageFacts::ReadBody,
            InstallStage::ProbeDir => InstallStageFacts::ProbeDir,
            InstallStage::RemoveDir => InstallStageFacts::RemoveDir,
            InstallStage::CreateDir => InstallStageFacts::CreateDir,
            InstallStage::WriteArchive => InstallStageFacts::WriteArchive,
            InstallStage::RunTar => InstallStageFacts::RunTar,
            InstallStage::RemoveArchive(ok) => InstallStageFacts::RemoveArchive(ok),
            InstallStage::UnpackZip => InstallStageFacts::UnpackZip,
            InstallStage::Unquarantine => InstallStageFacts::Unquarantine,
            InstallStage::Stamp => InstallStageFacts::Stamp,
            InstallStage::Done(r) => InstallStageFacts::Done(outcome_told(r)),
        }
    }
}

/// The installing of one version of a game.
pub struct Install {
    slug: String,
    url: String,
    version: String,
    platform: Platform,
    stage: InstallStage,
}

#[verifier::ext_equal]
pub struct InstallFacts {
    pub slug: Seq<char>,
    pub url: Seq<char>,
    pub version: Seq<char>,
    pub platform: Platform,
    pub stage: InstallStageFacts,
}

impl View for Install {
    type V = InstallFacts;

    closed spec fn view(&self) -> InstallFacts {
        InstallFacts {
            slug: self.slug@,
            url: self.url@,
            version: self.version@,
            platform: self.platform,
            stage: self.stage@,
        }
    }
}

/// What is to be done next. A place is given by its parts, below the launcher's
/// own data.
pub enum InstallAction {
    /// Fetch the payload of the game under this slug.
    FetchPayload(String),
    /// Ask for the archive at this address.
    Download(String),
    /// Read the archive.
    ReadBody,
    /// Look whether there is something at this place.
    ProbeDir(Vec<String>),
    /// Delete the directory at this place, with all that is in it.
    RemoveDir(Vec<String>),
    /// Create the directory at this place, with those above it.
    CreateDir(Vec<String>),
    /// Write the archive to this place.
    WriteArchive(Vec<String>),
    /// Have the archive at the first place unpacked into the second.
    RunTar(Vec<String>, Vec<String>),
    /// Delete the archive at this place.
    RemoveArchive(Vec<String>),
    /// Unpack the archive into this place.
    UnpackZip(Vec<String>),
    /// Take the quarantine off what is at this place.
    Unquarantine(Vec<String>),
    /// Write the version to this place.
    Stamp(Vec<String>, String),
    /// Nothing more.
    Nothing,
}

#[verifier::ext_equal]
pub enum InstallActionFacts {
    FetchPayload(Seq<char>),
    Download(Seq<char>),
    ReadBody,
    ProbeDir(Seq<Seq<char>>),
    RemoveDir(Seq<Seq<char>>),
    CreateDir(Seq<Seq<char>>),
    WriteArchive(Seq<Seq<char>>),
    RunTar(Seq<Seq<char>>, Seq<Seq<char>>),
    RemoveArchive(Seq<Seq<char>>),
    UnpackZip(Seq<Seq<char>>),
    Unquarantine(Seq<Seq<char>>),
    Stamp(Seq<Seq<char>>, Seq<char>),
    Nothing,
}

impl View for InstallAction {
    type V = InstallActionFacts;

    open spec fn view(&self) -> InstallActionFacts {
        match *self {
            InstallAction::FetchPayload(slug) => InstallActionFacts::FetchPayload(slug@),
            InstallAction::Download(url) => InstallActionFacts::Download(url@),
            InstallAction::ReadBody => InstallActionFacts::ReadBody,
            InstallAction::ProbeDir(p) => InstallActionFacts::ProbeDir(texts(p@)),
            InstallAction::RemoveDir(p) => InstallActionFacts::RemoveDir(texts(p@)),
            InstallAction::CreateDir(p) => InstallActionFacts::CreateDir(texts(p@)),
            InstallAction::WriteArchive(p) => InstallActionFacts::WriteArchive(texts(p@)),
            InstallAction::RunTar(p, q) => InstallActionFacts::RunTar(texts(p@), texts(q@)),
            InstallAction::RemoveArchive(p) => InstallActionFacts::RemoveArchive(texts(p@)),
            InstallAction::UnpackZip(p) => InstallActionFacts::UnpackZip(texts(p@)),
            InstallAction::Unquarantine(p) => InstallActionFacts::Unquarantine(texts(p@)),
            InstallAction::Stamp(p, v) => InstallActionFacts::Stamp(texts(p@), v@),
            InstallAction::Nothing => InstallActionFacts::Nothing,
        }
    }
}

/// What came of it.
pub enum InstallReply {
    /// It was done.
    Done,
    /// It failed.
    Failed(String),
    /// The status of an answer.
    Status(HttpStatus),
    /// Whether there is something at the place that was looked at.
    Exists(bool),
    /// Whether the program that was run succeeded.
    Exit(bool),
}

pub enum InstallReplyFacts {
    Done,
    Failed(Seq<char>),
    Status(u16),
    Exists(bool),
    Exit(bool),
}

impl View for InstallReply {
    type V = InstallReplyFacts;

    open spec fn view(&self) -> InstallReplyFacts {
        match *self {
            InstallReply::Done => InstallReplyFacts::Done,
            InstallReply::Failed(e) => InstallReplyFacts::Failed(e@),
            InstallReply::Status(status) => InstallReplyFacts::Status(status.code()),
            InstallReply::Exists(b) => InstallReplyFacts::Exists(b),
            InstallReply::Exit(b) => InstallReplyFacts::Exit(b),
        }
    }
}

// ---- What an install does --------------------------------------------------------------

/// The archive at that address is a tar archive, and otherwise a zip archive.
pub open spec fn is_tar(url: Seq<char>) -> bool {
    has_suffix(url, ".tar.gz"@) || has_suffix(url, ".tgz"@)
}

/// The game under that slug has a payload.
pub open spec fn has_payload(slug: Seq<char>) -> bool {
    catalog_row(slug) matches Some(g) && g.payload is Some
}

/// The install of a version of the game under a slug. The payload comes first,
/// so that a game is never there without it.
pub open spec fn install_of(
    slug: Seq<char>,
    url: Seq<char>,
    version: Seq<char>,
    platform: Platform,
) -> InstallFacts {
    InstallFacts {
        slug,
        url,
        version,
        platform,
        stage: if has_payload(slug) {
            InstallStageFacts::FetchPayload
        } else {
            InstallStageFacts::Download
        },
    }
}

impl InstallFacts {
    /// The folder of the game.
    pub open spec fn place(self) -> Seq<Seq<char>> {
        seq!["games"@, self.slug]
    }

    /// The place of the tar archive while it is unpacked.
    pub open spec fn archive(self) -> Seq<Seq<char>> {
        self.place().push("__download.tar.gz"@)
    }

    /// The place of the version's stamp.
    pub open spec fn stamp(self) -> Seq<Seq<char>> {
        self.place().push("version.txt"@)
    }

    /// What is to be done at a stage.
    pub open spec fn action_at(self, stage: InstallStageFacts) -> InstallActionFacts {
        match stage {
            InstallStageFacts::FetchPayload => InstallActionFacts::FetchPayload(self.slug),
            InstallStageFacts::Download => InstallActionFacts::Download(self.url),
            InstallStageFacts::ReadBody => InstallActionFacts::ReadBody,
            InstallStageFacts::ProbeDir => InstallActionFacts::ProbeDir(self.place()),
            InstallStageFacts::RemoveDir => InstallActionFacts::RemoveDir(self.place()),
            InstallStageFacts::CreateDir => InstallActionFacts::CreateDir(self.place()),
            InstallStageFacts::WriteArchive => InstallActionFacts::WriteArchive(self.archive()),
            InstallStageFacts::RunTar => InstallActionFacts::RunTar(self.archive(), self.place()),
            InstallStageFacts::RemoveArchive(_) => InstallActionFacts::RemoveArchive(
                self.archive(),
            ),
            InstallStageFacts::UnpackZip => InstallActionFacts::UnpackZip(self.place()),
            InstallStageFacts::Unquarantine => InstallActionFacts::Unquarantine(self.place()),
            InstallStageFacts::Stamp => InstallActionFacts::Stamp(self.stamp(), self.version),
            InstallStageFacts::Done(_) => InstallActionFacts::Nothing,
        }
    }

    /// What is to be done next.
    pub open spec fn action(self) -> InstallActionFacts {
        self.action_at(self.stage)
    }

    /// What follows once the archive is unpacked.
    pub open spec fn unpacked(self) -> InstallStageFacts {
        if self.platform == Platform::Mac {
            InstallStageFacts::Unquarantine
        } else {
            InstallStageFacts::Stamp
        }
    }

    /// How far the install has come once `reply` has come. A reply that does not
    /// belong to what was to be done changes nothing.
    pub open spec fn stage_after(self, reply: InstallReplyFacts) -> InstallStageFacts {
        match (self.stage, reply) {
            (InstallStageFacts::Done(_), _) => self.stage,
            // A game runs without its payload, so a payload that cannot be had is no reason
            // to refuse the install.
            (InstallStageFacts::FetchPayload, InstallReplyFacts::Done)
            | (InstallStageFacts::FetchPayload, InstallReplyFacts::Failed(_)) => {
                InstallStageFacts::Download
            },
            (InstallStageFacts::RemoveArchive(ok), InstallReplyFacts::Done)
            | (InstallStageFacts::RemoveArchive(ok), InstallReplyFacts::Failed(_)) => if ok {
                self.unpacked()
            } else {
                InstallStageFacts::Done(Err("failed to unpack the game archive"@))
            },
            (InstallStageFacts::Unquarantine, InstallReplyFacts::Done)
            | (InstallStageFacts::Unquarantine, InstallReplyFacts::Failed(_)) => {
                InstallStageFacts::Stamp
            },
            (InstallStageFacts::ProbeDir, InstallReplyFacts::Failed(_)) => self.stage,
            (_, InstallReplyFacts::Failed(e)) => InstallStageFacts::Done(Err(e)),
            (InstallStageFacts::Download, InstallReplyFacts::Status(code)) => if success(code) {
                InstallStageFacts::ReadBody
            } else {
                InstallStageFacts::Done(Err("download returned "@ + status_shown(code)))
            },
            (InstallStageFacts::ReadBody, InstallReplyFacts::Done) => InstallStageFacts::ProbeDir,
            (InstallStageFacts::ProbeDir, InstallReplyFacts::Exists(there)) => if there {
                InstallStageFacts::RemoveDir
            } else {
                InstallStageFacts::CreateDir
            },
            (InstallStageFacts::RemoveDir, InstallReplyFacts::Done) => InstallStageFacts::CreateDir,
            (InstallStageFacts::CreateDir, InstallReplyFacts::Done) => if is_tar(self.url) {
                InstallStageFacts::WriteArchive
            } else {
                InstallStageFacts::UnpackZip
            },
            (InstallStageFacts::WriteArchive, InstallReplyFacts::Done) => InstallStageFacts::RunTar,
            (InstallStageFacts::RunTar, InstallReplyFacts::Exit(ok)) => {
                InstallStageFacts::RemoveArchive(ok)
            },
            (InstallStageFacts::UnpackZip, InstallReplyFacts::Done) => self.unpacked(),
            (InstallStageFacts::Stamp, InstallReplyFacts::Done) => InstallStageFacts::Done(Ok(())),
            _ => self.stage,
        }
    }

    /// The install once `reply` has come.
    pub open spec fn after(self, reply: InstallReplyFacts) -> InstallFacts {
        InstallFacts { stage: self.stage_after(reply), ..self }
    }

    /// How the install ended, once it has.
    pub open spec fn outcome(self) -> Option<Result<(), Seq<char>>> {
        match self.stage {
            InstallStageFacts::Done(r) => Some(r),
            _ => None,
        }
    }
}

// ---- The install -----------------------------------------------------------------------

/// Starts the install of a version of the game under a slug, from an archive at
/// an address.
pub fn install(slug: &str, url: &str, version: &str, platform: Platform) -> (install: Install)
    ensures
        install@ == install_of(slug@, url@, version@, platform),
{
    let with_payload = match game_by_slug(slug) {
        Some(game) => game.payload.is_some(),
        None => false,
    };
    let stage = if with_payload {
        InstallStage::FetchPayload
    } else {
        InstallStage::Download
    };
    Install {
        slug: slug.to_owned(),
        url: url.to_owned(),
        version: version.to_owned(),
        platform,
        stage,
    }
}

/// The place of a file in the folder of a game.
fn in_game_dir(slug: &str, name: &str) -> (parts: Vec<String>)
    ensures
        texts(parts@) == seq!["games"@, slug@].push(name@),
{
    let mut parts = game_dir(slug);
    let ghost before = parts@;
    parts.push(name.to_owned());
    assert(texts(parts@) =~= texts(before).push(name@));
    parts
}

impl Install {
    /// What is to be done next.
    pub fn action(&self) -> (action: InstallAction)
        ensures
            action@ == self@.action(),
    {
        let slug = self.slug.as_str();
        match &self.stage {
            InstallStage::FetchPayload => InstallAction::FetchPayload(self.slug.clone()),
            InstallStage::Download => InstallAction::Download(self.url.clone()),
            InstallStage::ReadBody => InstallAction::ReadBody,
            InstallStage::ProbeDir => InstallAction::ProbeDir(game_dir(slug)),
            InstallStage::RemoveDir => InstallAction::RemoveDir(game_dir(slug)),
            InstallStage::CreateDir => InstallAction::CreateDir(game_dir(slug)),
            InstallStage::WriteArchive => InstallAction::WriteArchive(
                in_game_dir(slug, "__download.tar.gz"),
            ),
            InstallStage::RunTar => InstallAction::RunTar(
                in_game_dir(slug, "__download.tar.gz"),
                game_dir(slug),
            ),
            InstallStage::RemoveArchive(_) => InstallAction::RemoveArchive(
                in_game_dir(slug, "__download.tar.gz"),
            ),
            InstallStage::UnpackZip => InstallAction::UnpackZip(game_dir(slug)),
            InstallStage::Unquarantine => InstallAction::Unquarantine(game_dir(slug)),
            InstallStage::Stamp => InstallAction::Stamp(
                in_game_dir(slug, "version.txt"),
                self.version.clone(),
            ),
            InstallStage::Done(_) => InstallAction::Nothing,
        }
    }

    /// What follows once the archive is unpacked.
    fn unpacked(platform: Platform) -> (stage: InstallStage)
        ensures
            stage@ == (if platform == Platform::Mac {
                InstallStageFacts::Unquarantine
            } else {
                InstallStageFacts::Stamp
            }),
    {
        match platform {
            Platform::Mac => InstallStage::Unquarantine,
            _ => InstallStage::Stamp,
        }
    }

    /// The install once `reply` has come.
    pub fn next(self, reply: InstallReply) -> (install: Install)
        ensures
            install@ == self@.after(reply@),
    {
        let Install { slug, url, version, platform, stage } = self;
        let stage = match (stage, reply) {
            (InstallStage::Done(r), _) => InstallStage::Done(r),
            (InstallStage::FetchPayload, InstallReply::Done)
            | (InstallStage::FetchPayload, InstallReply::Failed(_)) => InstallStage::Download,
            (InstallStage::RemoveArchive(ok), InstallReply::Done)
            | (InstallStage::RemoveArchive(ok), InstallReply::Failed(_)) => {
                if ok {
                    Install::unpacked(platform)
                } else {
                    InstallStage::Done(Err("failed to unpack the game archive".to_owned()))
                }
            },
            (InstallStage::Unquarantine, InstallReply::Done)
            | (InstallStage::Unquarantine, InstallReply::Failed(_)) => InstallStage::Stamp,
            (InstallStage::ProbeDir, InstallReply::Failed(_)) => InstallStage::ProbeDir,
            (_, InstallReply::Failed(e)) => InstallStage::Done(Err(e)),
            (InstallStage::Download, InstallReply::Status(status)) => {
                if status.is_success() {
                    InstallStage::ReadBody
                } else {
                    InstallStage::Done(
                        Err(joined_pair("download returned ", status.shown().as_str())),
                    )
                }
            },
            (InstallStage::ReadBody, InstallReply::Done) => InstallStage::ProbeDir,
            (InstallStage::ProbeDir, InstallReply::Exists(there)) => {
                if there {
                    InstallStage::RemoveDir
                } else {
                    InstallStage::CreateDir
                }
            },
            (InstallStage::RemoveDir, InstallReply::Done) => InstallStage::CreateDir,
            (InstallStage::CreateDir, InstallReply::Done) => {
                if ends_with(url.as_str(), ".tar.gz") || ends_with(url.as_str(), ".tgz") {
                    InstallStage::WriteArchive
                } else {
                    InstallStage::UnpackZip
                }
            },
            (InstallStage::WriteArchive, InstallReply::Done) => InstallStage::RunTar,
            (InstallStage::RunTar, InstallReply::Exit(ok)) => InstallStage::RemoveArchive(ok),
            (InstallStage::UnpackZip, InstallReply::Done) => Install::unpacked(platform),
            (InstallStage::Stamp, InstallReply::Done) => InstallStage::Done(Ok(())),
            (stage, _) => stage,
        };
        Install { slug, url, version, platform, stage }
    }

    /// How the install ended, once it has.
    pub fn outcome(&self) -> (outcome: Option<Result<(), String>>)
        ensures
            (match outcome {
                Some(r) => Some(outcome_told(r)),
                None => None,
            }) == self@.outcome(),
    {
        match &self.stage {
            InstallStage::Done(Ok(_)) => Some(Ok(())),
            InstallStage::Done(Err(e)) => Some(Err(e.clone())),
            _ => None,
        }
    }
}

// ---- Laws ------------------------------------------------------------------------------------

impl InstallFacts {
    /// The install once all these replies have come, one after another.
    pub open spec fn run(self, replies: Seq<InstallReplyFacts>) -> InstallFacts
        decreases replies.len(),
    {
        if replies.len() == 0 {
            self
        } else {
            self.run(replies.drop_last()).after(replies.last())
        }
    }

    /// What has been done and replied to, in order.
    pub open spec fn trail(self, replies: Seq<InstallReplyFacts>) -> Seq<InstallActionFacts>
        decreases replies.len(),
    {
        if replies.len() == 0 {
            Seq::empty()
        } else {
            let before = self.run(replies.drop_last());
            let trail = self.trail(replies.drop_last());
            if before.after(replies.last()).stage == before.stage {
                trail
            } else {
                trail.push(before.action())
            }
        }
    }

    /// Whether the look at the folder's place found something there.
    pub open spec fn found_stale(self, replies: Seq<InstallReplyFacts>) -> bool
        decreases replies.len(),
    {
        if replies.len() == 0 {
            false
        } else {
            match (self.run(replies.drop_last()).stage, replies.last()) {
                (InstallStageFacts::ProbeDir, InstallReplyFacts::Exists(there)) => there,
                _ => self.found_stale(replies.drop_last()),
            }
        }
    }

    /// What comes before the archive is unpacked. `stale` says whether there was
    /// something in the folder's place.
    pub open spec fn until_unpacking(self, stale: bool) -> Seq<InstallActionFacts> {
        let asked = if has_payload(self.slug) {
            seq![
                self.action_at(InstallStageFacts::FetchPayload),
                self.action_at(InstallStageFacts::Download),
            ]
        } else {
            seq![self.action_at(InstallStageFacts::Download)]
        };
        let looked = asked.push(InstallActionFacts::ReadBody).push(
            self.action_at(InstallStageFacts::ProbeDir),
        );
        let cleared = if stale {
            looked.push(self.action_at(InstallStageFacts::RemoveDir))
        } else {
            looked
        };
        cleared.push(self.action_at(InstallStageFacts::CreateDir))
    }

    /// What comes before the version is stamped.
    pub open spec fn until_stamping(self, stale: bool) -> Seq<InstallActionFacts> {
        let unpacked = if is_tar(self.url) {
            self.until_unpacking(stale).push(
                self.action_at(InstallStageFacts::WriteArchive),
            ).push(self.action_at(InstallStageFacts::RunTar)).push(
                self.action_at(InstallStageFacts::RemoveArchive(true)),
            )
        } else {
            self.until_unpacking(stale).push(self.action_at(InstallStageFacts::UnpackZip))
        };
        if self.platform == Platform::Mac {
            unpacked.push(self.action_at(InstallStageFacts::Unquarantine))
        } else {
            unpacked
        }
    }

    /// The trail is the one that leads to the stage, so far as there is one.
    spec fn on_course(self, stale: bool, trail: Seq<InstallActionFacts>) -> bool {
        let unpacking = self.until_unpacking(stale);
        match self.stage {
            InstallStageFacts::FetchPayload => has_payload(self.slug) && trail == unpacking.take(0),
            InstallStageFacts::Download => trail == unpacking.take(
                if has_payload(self.slug) {
                    1
                } else {
                    0
                },
            ),
            InstallStageFacts::ReadBody => trail == unpacking.take(
                if has_payload(self.slug) {
                    2
                } else {
                    1
                },
            ),
            InstallStageFacts::ProbeDir => trail == unpacking.take(
                if has_payload(self.slug) {
                    3
                } else {
                    2
                },
            ),
            InstallStageFacts::RemoveDir => stale && trail == unpacking.take(
                if has_payload(self.slug) {
                    4
                } else {
                    3
                },
            ),
            InstallStageFacts::CreateDir => trail == unpacking.drop_last(),
            InstallStageFacts::WriteArchive => is_tar(self.url) && trail == unpacking,
            InstallStageFacts::RunTar => is_tar(self.url) && trail == unpacking.push(
                self.action_at(InstallStageFacts::WriteArchive),
            ),
            InstallStageFacts::RemoveArchive(_) => is_tar(self.url) && trail == unpacking.push(
                self.action_at(InstallStageFacts::WriteArchive),
            ).push(self.action_at(InstallStageFacts::RunTar)),
            InstallStageFacts::UnpackZip => !is_tar(self.url) && trail == unpacking,
            InstallStageFacts::Unquarantine => self.platform == Platform::Mac && trail
                == self.until_stamping(stale).drop_last(),
            InstallStageFacts::Stamp => trail == self.until_stamping(stale),
            InstallStageFacts::Done(Ok(_)) => trail == self.until_stamping(stale).push(
                self.action_at(InstallStageFacts::Stamp),
            ),
            InstallStageFacts::Done(Err(_)) => true,
        }
    }
}

/// The parts of an install that no reply changes.
proof fn lemma_run_keeps(start: InstallFacts, replies: Seq<InstallReplyFacts>)
    ensures
        start.run(replies).slug == start.slug,
        start.run(replies).url == start.url,
        start.run(replies).version == start.version,
        start.run(replies).platform == start.platform,
    decreases replies.len(),
{
    if replies.len() > 0 {
        lemma_run_keeps(start, replies.drop_last());
    }
}

proof fn lemma_on_course(
    slug: Seq<char>,
    url: Seq<char>,
    version: Seq<char>,
    platform: Platform,
    replies: Seq<InstallReplyFacts>,
)
    ensures
        ({
            let start = install_of(slug, url, version, platform);
            start.run(replies).on_course(start.found_stale(replies), start.trail(replies))
        }),
    decreases replies.len(),
{
    let start = install_of(slug, url, version, platform);
    if replies.len() == 0 {
        assert(start.trail(replies) =~= start.until_unpacking(false).take(0));
    } else {
        let rest = replies.drop_last();
        lemma_on_course(slug, url, version, platform, rest);
        lemma_course_step(
            start.run(rest),
            start.found_stale(rest),
            start.trail(rest),
            replies.last(),
            start.found_stale(replies),
        );
    }
}

proof fn lemma_course_step(
    before: InstallFacts,
    stale: bool,
    t: Seq<InstallActionFacts>,
    reply: InstallReplyFacts,
    other: bool,
)
    requires
        before.on_course(stale, t),
        other == (match (before.stage, reply) {
            (InstallStageFacts::ProbeDir, InstallReplyFacts::Exists(there)) => there,
            _ => stale,
        }),
    ensures
        before.after(reply).on_course(
            other,
            if before.after(reply).stage == before.stage {
                t
            } else {
                t.push(before.action())
            },
        ),
{
    let after = before.after(reply);
    let u = t.push(before.action());
    let unpacking = before.until_unpacking(other);
    let n: int = if has_payload(before.slug) {
        1
    } else {
        0
    };
    if after.stage != before.stage {
        match before.stage {
            InstallStageFacts::FetchPayload => {
                assert(u =~= unpacking.take(1));
            },
            InstallStageFacts::Download => {
                assert(u =~= unpacking.take(n + 1));
            },
            InstallStageFacts::ReadBody => {
                assert(u =~= unpacking.take(n + 2));
            },
            InstallStageFacts::ProbeDir => {
                assert(u =~= unpacking.take(n + 3));
                if !other {
                    assert(unpacking.drop_last() =~= unpacking.take(n + 3));
                }
            },
            InstallStageFacts::RemoveDir => {
                assert(u =~= unpacking.drop_last());
            },
            InstallStageFacts::CreateDir => {
                assert(u =~= unpacking);
            },
            InstallStageFacts::RemoveArchive(_) | InstallStageFacts::UnpackZip => {
                if before.platform == Platform::Mac {
                    assert(u =~= before.until_stamping(stale).drop_last());
                } else {
                    assert(u =~= before.until_stamping(stale));
                }
            },
            InstallStageFacts::Unquarantine => {
                assert(u =~= before.until_stamping(stale));
            },
            _ => {},
        }
        assert(after.on_course(other, u));
    }
}

/// An install that succeeds has done everything, in order: the payload was seen to
/// first, what was found in the folder's place was removed before anything was
/// unpacked into it, and the version was stamped last.
pub proof fn law_installed_in_order(
    slug: Seq<char>,
    url: Seq<char>,
    version: Seq<char>,
    platform: Platform,
    replies: Seq<InstallReplyFacts>,
)
    ensures
        ({
            let start = install_of(slug, url, version, platform);
            start.run(replies).outcome() == Some(Ok::<(), Seq<char>>(())) ==> start.trail(replies)
                == start.until_stamping(start.found_stale(replies)).push(
                InstallActionFacts::Stamp(start.stamp(), version),
            )
        }),
{
    lemma_on_course(slug, url, version, platform, replies);
    lemma_run_keeps(install_of(slug, url, version, platform), replies);
}

/// A payload that cannot be had never refuses an install: it goes on as if it
/// had come.
pub proof fn law_payload_never_refuses(install: InstallFacts, e: Seq<char>)
    requires
        install.stage is FetchPayload,
    ensures
        install.after(InstallReplyFacts::Failed(e)) == install.after(InstallReplyFacts::Done),
        install.after(InstallReplyFacts::Failed(e)).action() == InstallActionFacts::Download(
            install.url,
        ),
{
}

/// An install that has ended stays ended.
pub proof fn law_install_ends(install: InstallFacts, reply: InstallReplyFacts)
    requires
        install.outcome() is Some,
    ensures
        install.after(reply) == install,
{
}

/// An install starts with the payload of a game that has one, and with the archive
/// of any other.
pub proof fn law_install_starts(
    slug: Seq<char>,
    url: Seq<char>,
    version: Seq<char>,
    platform: Platform,
)
    ensures
        ({
            let install = install_of(slug, url, version, platform);
            &&& install.slug == slug
            &&& install.url == url
            &&& install.version == version
            &&& install.platform == platform
            &&& install.action() == (if (catalog_row(slug) matches Some(g) && g.payload is Some) {
                InstallActionFacts::FetchPayload(slug)
            } else {
                InstallActionFacts::Download(url)
            })
        }),
{
}

/// An install step by step: what each reply to what was to be done leads to. A
/// reply that does not belong to it changes nothing.
pub proof fn law_install_step_by_step(
    install: InstallFacts,
    reply: InstallReplyFacts,
    e: Seq<char>,
)
    ensures
        ({
            let next = install.after(reply);
            let dir = seq!["games"@, install.slug];
            let archive = seq!["games"@, install.slug, "__download.tar.gz"@];
            let stamp = InstallActionFacts::Stamp(
                seq!["games"@, install.slug, "version.txt"@],
                install.version,
            );
            let unpacked = if install.platform == Platform::Mac {
                InstallActionFacts::Unquarantine(dir)
            } else {
                stamp
            };
            &&& next.slug == install.slug
            &&& next.url == install.url
            &&& next.version == install.version
            &&& next.platform == install.platform
            &&& match (install.action(), reply) {
                (InstallActionFacts::FetchPayload(_), InstallReplyFacts::Done)
                | (InstallActionFacts::FetchPayload(_), InstallReplyFacts::Failed(_)) => {
                    next.action() == InstallActionFacts::Download(install.url)
                },
                (InstallActionFacts::Download(_), InstallReplyFacts::Status(code)) => if 200 <= code
                    && code <= 299 {
                    next.action() is ReadBody
                } else {
                    next.outcome() == Some(
                        Err::<(), Seq<char>>("download returned "@ + status_shown(code)),
                    )
                },
                (InstallActionFacts::ReadBody, InstallReplyFacts::Done) => next.action()
                    == InstallActionFacts::ProbeDir(dir),
                (InstallActionFacts::ProbeDir(_), InstallReplyFacts::Exists(there)) => next.action()
                    == (if there {
                    InstallActionFacts::RemoveDir(dir)
                } else {
                    InstallActionFacts::CreateDir(dir)
                }),
                (InstallActionFacts::RemoveDir(_), InstallReplyFacts::Done) => next.action()
                    == InstallActionFacts::CreateDir(dir),
                (InstallActionFacts::CreateDir(_), InstallReplyFacts::Done) => next.action() == (if has_suffix(
                    install.url,
                    ".tar.gz"@,
                ) || has_suffix(install.url, ".tgz"@) {
                    InstallActionFacts::WriteArchive(archive)
                } else {
                    InstallActionFacts::UnpackZip(dir)
                }),
                (InstallActionFacts::WriteArchive(_), InstallReplyFacts::Done) => next.action()
                    == InstallActionFacts::RunTar(archive, dir),
                (InstallActionFacts::RunTar(_, _), InstallReplyFacts::Exit(ok)) => {
                    let gone = next.after(InstallReplyFacts::Done);
                    &&& next.action() == InstallActionFacts::RemoveArchive(archive)
                    &&& gone == next.after(InstallReplyFacts::Failed(e))
                    &&& ok ==> gone.action() == unpacked
                    &&& !ok ==> gone.outcome() == Some(
                        Err::<(), Seq<char>>("failed to unpack the game archive"@),
                    )
                },
                (InstallActionFacts::RemoveArchive(_), InstallReplyFacts::Done)
                | (InstallActionFacts::RemoveArchive(_), InstallReplyFacts::Failed(_)) => {
                    next.action() == unpacked || next.outcome() == Some(
                        Err::<(), Seq<char>>("failed to unpack the game archive"@),
                    )
                },
                (InstallActionFacts::UnpackZip(_), InstallReplyFacts::Done) => next.action()
                    == unpacked,
                (InstallActionFacts::Unquarantine(_), InstallReplyFacts::Done)
                | (InstallActionFacts::Unquarantine(_), InstallReplyFacts::Failed(_)) => {
                    next.action() == stamp
                },
                (InstallActionFacts::Stamp(_, _), InstallReplyFacts::Done) => next.outcome()
                    == Some(Ok::<(), Seq<char>>(())),
                (InstallActionFacts::Download(_), InstallReplyFacts::Failed(why))
                | (InstallActionFacts::ReadBody, InstallReplyFacts::Failed(why))
                | (InstallActionFacts::RemoveDir(_), InstallReplyFacts::Failed(why))
                | (InstallActionFacts::CreateDir(_), InstallReplyFacts::Failed(why))
                | (InstallActionFacts::WriteArchive(_), InstallReplyFacts::Failed(why))
                | (InstallActionFacts::RunTar(_, _), InstallReplyFacts::Failed(why))
                | (InstallActionFacts::UnpackZip(_), InstallReplyFacts::Failed(why))
                | (InstallActionFacts::Stamp(_, _), InstallReplyFacts::Failed(why)) => {
                    next.outcome() == Some(Err::<(), Seq<char>>(why))
                },
                _ => next == install,
            }
        }),
{
    assert(install.archive() =~= seq!["games"@, install.slug, "__download.tar.gz"@]);
    assert(install.stamp() =~= seq!["games"@, install.slug, "version.txt"@]);
}

/// What is to be done and what came of it is taken as it is given.
pub proof fn law_install_words(
    text: String,
    p: Vec<String>,
    q: Vec<String>,
    status: HttpStatus,
    yes: bool,
)
    ensures
        InstallAction::FetchPayload(text)@ == InstallActionFacts::FetchPayload(text@),
        InstallAction::Download(text)@ == InstallActionFacts::Download(text@),
        InstallAction::ReadBody@ == InstallActionFacts::ReadBody,
        InstallAction::ProbeDir(p)@ == InstallActionFacts::ProbeDir(texts(p@)),
        InstallAction::RemoveDir(p)@ == InstallActionFacts::RemoveDir(texts(p@)),
        InstallAction::CreateDir(p)@ == InstallActionFacts::CreateDir(texts(p@)),
        InstallAction::WriteArchive(p)@ == InstallActionFacts::WriteArchive(texts(p@)),
        InstallAction::RunTar(p, q)@ == InstallActionFacts::RunTar(texts(p@), texts(q@)),
        InstallAction::RemoveArchive(p)@ == InstallActionFacts::RemoveArchive(texts(p@)),
        InstallAction::UnpackZip(p)@ == InstallActionFacts::UnpackZip(texts(p@)),
        InstallAction::Unquarantine(p)@ == InstallActionFacts::Unquarantine(texts(p@)),
        InstallAction::Stamp(p, text)@ == InstallActionFacts::Stamp(texts(p@), text@),
        InstallAction::Nothing@ == InstallActionFacts::Nothing,
        InstallReply::Done@ == InstallReplyFacts::Done,
        InstallReply::Failed(text)@ == InstallReplyFacts::Failed(text@),
        InstallReply::Status(status)@ == InstallReplyFacts::Status(status.code()),
        InstallReply::Exists(yes)@ == InstallReplyFacts::Exists(yes),
        InstallReply::Exit(yes)@ == InstallReplyFacts::Exit(yes),
{
}

} // verus!
