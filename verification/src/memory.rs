//! What was last answered about each repository, and for how long that is
//! worth trusting. GitHub allows few unauthenticated calls in an hour, so an
//! answer is kept for a few minutes.

use crate::json::{Json, JsonTree};
use vstd::hash_map::StringHashMap;
use vstd::prelude::*;

verus! {

/// How long a release answer is worth trusting: five minutes, in nanoseconds.
pub const REMEMBER_FOR: u64 = 300_000_000_000;

/// The last release answered about each repository, with the time of the
/// answer in nanoseconds on a clock that does not run backwards.
pub struct ReleaseMemory {
    answers: StringHashMap<(u64, Json)>,
}

impl View for ReleaseMemory {
    type V = Map<Seq<char>, (u64, JsonTree)>;

    closed spec fn view(&self) -> Map<Seq<char>, (u64, JsonTree)> {
        self.answers@.map_values(|a: (u64, Json)| (a.0, a.1@))
    }
}

/// The time between two moments, none where the second does not come later.
pub open spec fn elapsed(since: u64, now: u64) -> int {
    if now >= since {
        now - since
    } else {
        0
    }
}

/// The release that the memory still vouches for at a moment.
pub open spec fn recalled(
    memory: Map<Seq<char>, (u64, JsonTree)>,
    repo: Seq<char>,
    now: u64,
) -> Option<JsonTree> {
    if memory.contains_key(repo) && elapsed(memory[repo].0, now) < REMEMBER_FOR {
        Some(memory[repo].1)
    } else {
        None
    }
}

impl ReleaseMemory {
    /// A memory of nothing.
    pub fn new() -> (memory: ReleaseMemory)
        ensures
            memory@ == Map::<Seq<char>, (u64, JsonTree)>::empty(),
    {
        let memory = ReleaseMemory { answers: StringHashMap::new() };
        assert(memory@ =~= Map::<Seq<char>, (u64, JsonTree)>::empty());
        memory
    }

    /// The release last answered about a repository, where that is recent.
    pub fn remembered_release(&self, repo: &str, now: u64) -> (release: Option<Json>)
        ensures
            (match release {
                Some(j) => Some(j@),
                None => None,
            }) == recalled(self@, repo@, now),
    {
        match self.answers.get(repo) {
            Some(answer) => {
                if now.saturating_sub(answer.0) < REMEMBER_FOR {
                    Some(answer.1.duplicate())
                } else {
                    None
                }
            },
            None => None,
        }
    }

    /// Keeps an answer about a repository in place of the one before.
    pub fn remember_release(&mut self, repo: &str, release: &Json, now: u64)
        ensures
            final(self)@ == old(self)@.insert(repo@, (now, release@)),
    {
        let copy = release.duplicate();
        self.answers.insert(repo.to_owned(), (now, copy));
        assert(self@ =~= old(self)@.insert(repo@, (now, release@)));
    }
}

/// What was written is read back for five minutes, and no longer; and nothing is
/// read that was not written.
pub proof fn law_recall(
    memory: Map<Seq<char>, (u64, JsonTree)>,
    repo: Seq<char>,
    release: JsonTree,
    when: u64,
    now: u64,
)
    ensures
        now < when + 300_000_000_000 ==> recalled(
            memory.insert(repo, (when, release)),
            repo,
            now,
        ) == Some(release),
        now >= when + 300_000_000_000 ==> recalled(
            memory.insert(repo, (when, release)),
            repo,
            now,
        ) is None,
        !memory.contains_key(repo) ==> recalled(memory, repo, now) is None,
{
}

/// An answer about one repository changes nothing about another.
pub proof fn law_recall_apart(
    memory: Map<Seq<char>, (u64, JsonTree)>,
    repo: Seq<char>,
    other: Seq<char>,
    release: JsonTree,
    when: u64,
    now: u64,
)
    requires
        repo != other,
    ensures
        recalled(memory.insert(repo, (when, release)), other, now) == recalled(memory, other, now),
{
}

} // verus!
