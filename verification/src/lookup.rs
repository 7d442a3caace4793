//! The question what the newest release of a game is, put to GitHub step by
//! step: the lookup says what it waits for, and is told what came back.

use crate::catalog::{
    catalog_row, catalog_rows, game_by_slug, law_repos_distinct, Game, GameFacts,
};
use crate::http::{status_shown, success, HttpStatus};
use crate::json::{document_in, Json, JsonTree};
use crate::memory::{recalled, ReleaseMemory};
use crate::platform::Platform;
use crate::release::{
    carries, latest_in, latest_of, latest_told, law_newest_is_first, newest, newest_in_body,
    newest_release_in, refusal, release_status, release_told, releases_address, releases_url,
    Latest, LatestFacts, RATE_LIMITED,
};
use vstd::prelude::*;

verus! {

/// How far a lookup has come.
pub enum LookupStage {
    /// The list of releases is to be asked for.
    Ask,
    /// The list is coming: its text is to be read.
    Read,
    /// There is an answer.
    Done(Result<Json, String>),
}

#[verifier::ext_equal]
pub enum LookupStageFacts {
    Ask,
    Read,
    Done(Result<JsonTree, Seq<char>>),
}

/// The search for the newest release of one game.
pub struct Lookup {
    repo: String,
    asset: String,
    stage: LookupStage,
}

#[verifier::ext_equal]
pub struct LookupFacts {
    pub repo: Seq<char>,
    pub asset: Seq<char>,
    pub stage: LookupStageFacts,
}

/// What a lookup waits for.
pub enum LookupAction {
    /// A request for the list of releases at this address.
    Get(String),
    /// The text of the answer to that request.
    ReadBody,
    /// Nothing more.
    Nothing,
}

pub enum LookupActionFacts {
    Get(Seq<char>),
    ReadBody,
    Nothing,
}

/// What came back.
pub enum LookupReply {
    /// The request or the reading failed.
    Failed(String),
    /// The answer's status, and its count of the calls that are left.
    Status(HttpStatus, Option<String>),
    /// The answer's text.
    Body(Vec<u8>),
}

pub enum LookupReplyFacts {
    Failed(Seq<char>),
    Status(u16, Option<Seq<char>>),
    Body(Seq<u8>),
}

impl View for LookupStage {
    type V = LookupStageFacts;

    open spec fn view(&self) -> LookupStageFacts {
        match *self {
            LookupStage::Ask => LookupStageFacts::Ask,
            LookupStage::Read => LookupStageFacts::Read,
            LookupStage::Done(r) => LookupStageFacts::Done(release_told(r)),
        }
    }
}

impl View for Lookup {
    type V = LookupFacts;

    closed spec fn view(&self) -> LookupFacts {
        LookupFacts { repo: self.repo@, asset: self.asset@, stage: self.stage@ }
    }
}

impl View for LookupAction {
    type V = LookupActionFacts;

    open spec fn view(&self) -> LookupActionFacts {
        match *self {
            LookupAction::Get(url) => LookupActionFacts::Get(url@),
            LookupAction::ReadBody => LookupActionFacts::ReadBody,
            LookupAction::Nothing => LookupActionFacts::Nothing,
        }
    }
}

impl View for LookupReply {
    type V = LookupReplyFacts;

    open spec fn view(&self) -> LookupReplyFacts {
        match *self {
            LookupReply::Failed(e) => LookupReplyFacts::Failed(e@),
            LookupReply::Status(status, remaining) => LookupReplyFacts::Status(
                status.code(),
                match remaining {
                    Some(r) => Some(r@),
                    None => None,
                },
            ),
            LookupReply::Body(body) => LookupReplyFacts::Body(body@),
        }
    }
}

/// The lookup for a game: answered from memory where that is recent enough.
pub open spec fn lookup_for(
    game: GameFacts,
    platform: Platform,
    memory: Map<Seq<char>, (u64, JsonTree)>,
    now: u64,
) -> LookupFacts {
    LookupFacts {
        repo: game.repo,
        asset: game.delivery.suffix(platform),
        stage: match recalled(memory, game.repo, now) {
            Some(release) => LookupStageFacts::Done(Ok(release)),
            None => LookupStageFacts::Ask,
        },
    }
}

impl LookupFacts {
    /// What the lookup waits for.
    pub open spec fn action(self) -> LookupActionFacts {
        match self.stage {
            LookupStageFacts::Ask => LookupActionFacts::Get(releases_address(self.repo)),
            LookupStageFacts::Read => LookupActionFacts::ReadBody,
            LookupStageFacts::Done(_) => LookupActionFacts::Nothing,
        }
    }

    /// How far the lookup has come once `reply` has come back. A reply that is
    /// not what it waits for changes nothing.
    pub open spec fn stage_after(self, reply: LookupReplyFacts) -> LookupStageFacts {
        match (self.stage, reply) {
            (LookupStageFacts::Ask, LookupReplyFacts::Failed(e)) => LookupStageFacts::Done(Err(e)),
            (LookupStageFacts::Ask, LookupReplyFacts::Status(code, remaining)) => match refusal(
                code,
                remaining,
            ) {
                Some(e) => LookupStageFacts::Done(Err(e)),
                None => LookupStageFacts::Read,
            },
            (LookupStageFacts::Read, LookupReplyFacts::Failed(e)) => LookupStageFacts::Done(Err(e)),
            (LookupStageFacts::Read, LookupReplyFacts::Body(body)) => LookupStageFacts::Done(
                newest_in_body(body, self.asset),
            ),
            _ => self.stage,
        }
    }

    /// The lookup once `reply` has come back.
    pub open spec fn after(self, reply: LookupReplyFacts) -> LookupFacts {
        LookupFacts { stage: self.stage_after(reply), ..self }
    }

    /// What is remembered once `reply` has come back at `now`: a release that
    /// was just found, and otherwise what was remembered before.
    pub open spec fn memory_after(
        self,
        memory: Map<Seq<char>, (u64, JsonTree)>,
        reply: LookupReplyFacts,
        now: u64,
    ) -> Map<Seq<char>, (u64, JsonTree)> {
        match (self.stage, self.stage_after(reply)) {
            (LookupStageFacts::Read, LookupStageFacts::Done(Ok(release))) => memory.insert(
                self.repo,
                (now, release),
            ),
            _ => memory,
        }
    }

    /// What is told of the newest release, once there is an answer.
    pub open spec fn told(self) -> Option<Result<LatestFacts, Seq<char>>> {
        match self.stage {
            LookupStageFacts::Done(Ok(release)) => Some(latest_in(release, self.asset)),
            LookupStageFacts::Done(Err(e)) => Some(Err(e)),
            _ => None,
        }
    }
}

/// Starts the search for the newest release of a game at `now`.
pub fn latest_release(game: &Game, platform: Platform, memory: &ReleaseMemory, now: u64) -> (lookup:
    Lookup)
    ensures
        lookup@ == lookup_for(game@, platform, memory@, now),
{
    let stage = match memory.remembered_release(game.repo, now) {
        Some(release) => LookupStage::Done(Ok(release)),
        None => LookupStage::Ask,
    };
    Lookup { repo: game.repo.to_owned(), asset: game.delivery.asset(platform).to_owned(), stage }
}

/// Starts the search for the newest release of the game under a slug.
pub fn check_latest(slug: &str, platform: Platform, memory: &ReleaseMemory, now: u64) -> (lookup:
    Result<Lookup, String>)
    ensures
        lookup is Ok <==> catalog_row(slug@) is Some,
        lookup matches Ok(l) ==> l@ == lookup_for(
            catalog_row(slug@)->0,
            platform,
            memory@,
            now,
        ),
        lookup matches Err(e) ==> e@ == "unknown game"@,
{
    match game_by_slug(slug) {
        Some(game) => Ok(latest_release(&game, platform, memory, now)),
        None => Err("unknown game".to_owned()),
    }
}

impl Lookup {
    /// What the lookup waits for.
    pub fn action(&self) -> (action: LookupAction)
        ensures
            action@ == self@.action(),
    {
        match &self.stage {
            LookupStage::Ask => LookupAction::Get(releases_url(self.repo.as_str())),
            LookupStage::Read => LookupAction::ReadBody,
            LookupStage::Done(_) => LookupAction::Nothing,
        }
    }

    /// Takes what came back at `now`.
    pub fn next(&mut self, reply: LookupReply, memory: &mut ReleaseMemory, now: u64)
        ensures
            final(self)@ == old(self)@.after(reply@),
            final(memory)@ == old(self)@.memory_after(old(memory)@, reply@, now),
    {
        match &self.stage {
            LookupStage::Ask => match reply {
                LookupReply::Failed(e) => {
                    self.stage = LookupStage::Done(Err(e));
                },
                LookupReply::Status(status, remaining) => {
                    let left = match &remaining {
                        Some(r) => Some(r.as_str()),
                        None => None,
                    };
                    match release_status(&status, left) {
                        Ok(_) => {
                            self.stage = LookupStage::Read;
                        },
                        Err(e) => {
                            self.stage = LookupStage::Done(Err(e));
                        },
                    }
                },
                LookupReply::Body(_) => {},
            },
            LookupStage::Read => match reply {
                LookupReply::Failed(e) => {
                    self.stage = LookupStage::Done(Err(e));
                },
                LookupReply::Status(_, _) => {},
                LookupReply::Body(body) => {
                    let found = newest_release_in(body.as_slice(), self.asset.as_str());
                    match &found {
                        Ok(release) => {
                            memory.remember_release(self.repo.as_str(), release, now);
                        },
                        Err(_) => {},
                    }
                    self.stage = LookupStage::Done(found);
                },
            },
            LookupStage::Done(_) => {},
        }
    }

    /// What is told of the newest release, once there is an answer.
    pub fn latest(&self) -> (latest: Option<Result<Latest, String>>)
        ensures
            (match latest {
                Some(r) => Some(latest_told(r)),
                None => None,
            }) == self@.told(),
    {
        match &self.stage {
            LookupStage::Done(Ok(release)) => Some(latest_of(release, self.asset.as_str())),
            LookupStage::Done(Err(e)) => Some(Err(e.clone())),
            _ => None,
        }
    }
}

// ---- Laws ------------------------------------------------------------------------------------

/// Once a release has been found, GitHub is not asked about the same game again
/// for five minutes: the next lookup starts with the answer.
pub proof fn law_asked_once(
    lookup: LookupFacts,
    memory: Map<Seq<char>, (u64, JsonTree)>,
    reply: LookupReplyFacts,
    when: u64,
    game: GameFacts,
    platform: Platform,
    now: u64,
)
    requires
        lookup.repo == game.repo,
        lookup.stage is Read,
        lookup.after(reply).stage matches LookupStageFacts::Done(Ok(_)),
        now < when + 300_000_000_000,
    ensures
        lookup_for(game, platform, lookup.memory_after(memory, reply, when), now).stage
            == lookup.after(reply).stage,
        lookup_for(game, platform, lookup.memory_after(memory, reply, when), now).action()
            is Nothing,
{
}

/// A lookup that fails leaves the memory as it was: a refusal is never kept for
/// an answer, nor does it cost the answer that was kept.
pub proof fn law_failures_not_remembered(
    lookup: LookupFacts,
    memory: Map<Seq<char>, (u64, JsonTree)>,
    reply: LookupReplyFacts,
    now: u64,
)
    requires
        !(lookup.after(reply).stage matches LookupStageFacts::Done(Ok(_))),
    ensures
        lookup.memory_after(memory, reply, now) == memory,
{
}

/// GitHub's limit on calls is told for what it is, all the way to the screen; a
/// refusal of any other kind is told by its status.
pub proof fn law_rate_limit_told(lookup: LookupFacts, code: u16, remaining: Option<Seq<char>>)
    requires
        lookup.stage is Ask,
    ensures
        (code == 403 || code == 429) && remaining == Some("0"@) ==> lookup.after(
            LookupReplyFacts::Status(code, remaining),
        ).told() == Some(Err::<LatestFacts, Seq<char>>(RATE_LIMITED@)),
        !success(code) && !((code == 403 || code == 429) && remaining == Some("0"@))
            ==> lookup.after(LookupReplyFacts::Status(code, remaining)).told() == Some(
            Err::<LatestFacts, Seq<char>>("GitHub returned "@ + status_shown(code)),
        ),
{
}

/// What is remembered about each game is a release that carries it.
pub open spec fn memory_sound(
    memory: Map<Seq<char>, (u64, JsonTree)>,
    platform: Platform,
) -> bool {
    forall|i: int|
        0 <= i < catalog_rows().len() && memory.contains_key(
            (#[trigger] catalog_rows()[i]).repo,
        ) ==> carries(
            memory[catalog_rows()[i].repo].1,
            catalog_rows()[i].delivery.suffix(platform),
        )
}

/// A memory of nothing is sound, and the lookups for the games of the catalog
/// keep it so.
pub proof fn law_memory_stays_sound(
    i: int,
    platform: Platform,
    lookup: LookupFacts,
    memory: Map<Seq<char>, (u64, JsonTree)>,
    reply: LookupReplyFacts,
    now: u64,
)
    requires
        0 <= i < catalog_rows().len(),
        lookup.repo == catalog_rows()[i].repo,
        lookup.asset == catalog_rows()[i].delivery.suffix(platform),
        memory_sound(memory, platform),
    ensures
        memory_sound(Map::empty(), platform),
        memory_sound(lookup.memory_after(memory, reply, now), platform),
{
    let after = lookup.memory_after(memory, reply, now);
    match (lookup.stage, reply) {
        (LookupStageFacts::Read, LookupReplyFacts::Body(body)) => {
            match document_in(body) {
                Some(answer) => {
                    match answer.list() {
                        Some(releases) => law_newest_is_first(releases, lookup.asset),
                        None => {},
                    }
                },
                None => {},
            }
            assert forall|k: int|
                0 <= k < catalog_rows().len() && after.contains_key(
                    (#[trigger] catalog_rows()[k]).repo,
                ) implies carries(
                after[catalog_rows()[k].repo].1,
                catalog_rows()[k].delivery.suffix(platform),
            ) by {
                if catalog_rows()[k].repo == lookup.repo {
                    law_repos_distinct(i, k);
                }
            }
        },
        _ => {},
    }
}

/// Every lookup that is answered from a sound memory tells a version and an address.
pub proof fn law_memory_is_told(
    i: int,
    platform: Platform,
    memory: Map<Seq<char>, (u64, JsonTree)>,
    now: u64,
)
    requires
        0 <= i < catalog_rows().len(),
        memory_sound(memory, platform),
        recalled(memory, catalog_rows()[i].repo, now) is Some,
    ensures
        lookup_for(catalog_rows()[i], platform, memory, now).told() matches Some(Ok(_)),
{
}

/// A lookup is of the game's own repository and of its asset for the platform, and
/// asks GitHub for the list of releases unless the memory answers.
pub proof fn law_lookup_starts(
    game: GameFacts,
    platform: Platform,
    memory: Map<Seq<char>, (u64, JsonTree)>,
    now: u64,
)
    ensures
        ({
            let lookup = lookup_for(game, platform, memory, now);
            &&& lookup.repo == game.repo
            &&& lookup.asset == game.delivery.suffix(platform)
            &&& match recalled(memory, game.repo, now) {
                Some(release) => lookup.action() is Nothing && lookup.told() == Some(
                    latest_in(release, game.delivery.suffix(platform)),
                ),
                None => lookup.told() is None && lookup.action() == LookupActionFacts::Get(
                    "https://api.github.com/repos/"@ + game.repo + "/releases?per_page=20"@,
                ),
            }
        }),
{
}

/// A lookup step by step: what it waits for and what is told after each reply, and
/// that only a release that was just found is remembered, under its own repository.
pub proof fn law_lookup_step_by_step(
    lookup: LookupFacts,
    reply: LookupReplyFacts,
    memory: Map<Seq<char>, (u64, JsonTree)>,
    now: u64,
)
    ensures
        ({
            let next = lookup.after(reply);
            let kept = lookup.memory_after(memory, reply, now);
            &&& next.repo == lookup.repo
            &&& next.asset == lookup.asset
            &&& match (lookup.action(), reply) {
                (LookupActionFacts::Get(_), LookupReplyFacts::Failed(e)) => next.told() == Some(
                    Err::<LatestFacts, Seq<char>>(e),
                ) && kept == memory,
                (LookupActionFacts::Get(_), LookupReplyFacts::Status(code, remaining)) => {
                    &&& 200 <= code && code <= 299 ==> next.action() is ReadBody && next.told()
                        is None
                    &&& !(200 <= code && code <= 299) ==> next.action() is Nothing
                    &&& kept == memory
                },
                (LookupActionFacts::ReadBody, LookupReplyFacts::Failed(e)) => next.told() == Some(
                    Err::<LatestFacts, Seq<char>>(e),
                ) && kept == memory,
                (LookupActionFacts::ReadBody, LookupReplyFacts::Body(body)) => match document_in(
                    body,
                ) {
                    Some(JsonTree::List(releases)) => match newest(releases, lookup.asset) {
                        Some(release) => next.told() == Some(latest_in(release, lookup.asset))
                            && kept == memory.insert(lookup.repo, (now, release)),
                        None => next.told() == Some(
                            Err::<LatestFacts, Seq<char>>("no published game release found"@),
                        ) && kept == memory,
                    },
                    Some(_) => next.told() == Some(
                        Err::<LatestFacts, Seq<char>>("unexpected GitHub response"@),
                    ) && kept == memory,
                    None => next.told() == Some(
                        Err::<LatestFacts, Seq<char>>("error decoding response body"@),
                    ) && kept == memory,
                },
                _ => next == lookup && kept == memory,
            }
        }),
{
}

/// What is asked for and what comes back is taken as it is given.
pub proof fn law_lookup_words(
    text: String,
    status: HttpStatus,
    remaining: Option<String>,
    body: Vec<u8>,
)
    ensures
        LookupAction::Get(text)@ == LookupActionFacts::Get(text@),
        LookupAction::ReadBody@ == LookupActionFacts::ReadBody,
        LookupAction::Nothing@ == LookupActionFacts::Nothing,
        LookupReply::Failed(text)@ == LookupReplyFacts::Failed(text@),
        LookupReply::Status(status, remaining)@ == LookupReplyFacts::Status(
            status.code(),
            match remaining {
                Some(r) => Some(r@),
                None => None,
            },
        ),
        LookupReply::Body(body)@ == LookupReplyFacts::Body(body@),
{
}

} // verus!
