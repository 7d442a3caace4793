//! The playing of a game, step by step. A native game is run as a process of
//! its own; a web game is served over its own port and shown in the launcher's
//! window.

use crate::catalog::{
    catalog_row, catalog_rows, game_by_slug, law_ports_distinct, Delivery, DeliveryFacts,
};
use crate::folders::{
    ends_launchable, entry_with, find_entry, game_dir, has_extension, launchable, law_first_entry,
    lemma_launchable, names, preference, read_fs_pref,
};
use crate::payload::outcome_told;
use crate::platform::Platform;
use crate::text::{decimal, decimal_text, law_decimal_distinct, texts};
use std::collections::HashSet;
use vstd::prelude::*;

verus! {

/// The ports that a server is already bound to.
pub struct Ports {
    bound: HashSet<u16>,
}

impl View for Ports {
    type V = Set<u16>;

    closed spec fn view(&self) -> Set<u16> {
        self.bound@
    }
}

impl Ports {
    /// No ports.
    pub fn new() -> (ports: Ports)
        ensures
            ports@ == Set::<u16>::empty(),
    {
        Ports { bound: HashSet::new() }
    }

    /// Whether a server is bound to the port.
    pub fn is_bound(&self, port: u16) -> (yes: bool)
        ensures
            yes == self@.contains(port),
    {
        self.bound.contains(&port)
    }

    /// Notes that a server is bound to the port.
    fn bind(&mut self, port: u16)
        ensures
            final(self)@ == old(self)@.insert(port),
    {
        self.bound.insert(port);
    }
}

/// How far the playing of a game has come.
pub enum PlayStage {
    /// The launcher's data is to be found.
    Locate,
    /// The entries of the game's folder are to be listed.
    List,
    /// The entry of this number is to be run.
    Launch(usize),
    /// The bundle's page is to be looked for.
    ProbeIndex(u16),
    /// The record of the served ports is to be taken hold of.
    Claim(u16),
    /// The bundle is to be served.
    Serve(u16),
    /// The page is to be shown.
    Show(u16),
    /// The fullscreen preference is to be read.
    Recall,
    /// The window is to be made fullscreen.
    Fullscreen,
    Done(Result<(), String>),
}

pub enum PlayStageFacts {
    Locate,
    List,
    Launch(int),
    ProbeIndex(u16),
    Claim(u16),
    Serve(u16),
    Show(u16),
    Recall,
    Fullscreen,
    Done(Result<(), Seq<char>>),
}

impl View for PlayStage {
    type V = PlayStageFacts;

    open spec fn view(&self) -> PlayStageFacts {
        match *self {
            PlayStage::Locate => PlayStageFacts::Locate,
            PlayStage::List => PlayStageFacts::List,
            PlayStage::Launch(i) => PlayStageFacts::Launch(i as int),
            PlayStage::ProbeIndex(port) => PlayStageFacts::ProbeIndex(port),
            PlayStage::Claim(port) => PlayStageFacts::Claim(port),
            PlayStage::Serve(port) => PlayStageFacts::Serve(port),
            PlayStage::Show(port) => PlayStageFacts::Show(port),
            PlayStage::Recall => PlayStageFacts::Recall,
            PlayStage::Fullscreen => PlayStageFacts::Fullscreen,
            PlayStage::Done(r) => PlayStageFacts::Done(outcome_told(r)),
        }
    }
}

/// The playing of one game.
pub struct Play {
    slug: String,
    name: String,
    /// The port of a web game; nothing for a native one.
    port: Option<u16>,
    platform: Platform,
    stage: PlayStage,
}

#[verifier::ext_equal]
pub struct PlayFacts {
    pub slug: Seq<char>,
    pub name: Seq<char>,
    pub port: Option<u16>,
    pub platform: Platform,
    pub stage: PlayStageFacts,
}

impl View for Play {
    type V = PlayFacts;

    closed spec fn view(&self) -> PlayFacts {
        PlayFacts {
            slug: self.slug@,
            name: self.name@,
            port: self.port,
            platform: self.platform,
            stage: self.stage@,
        }
    }
}

/// What is to be done next. A place is given by its parts, below the launcher's
/// own data.
pub enum PlayAction {
    /// Find the launcher's data.
    Locate,
    /// List the entries of the directory at this place.
    List(Vec<String>),
    /// Hand the entry of this number, a bundle, to the system to open.
    OpenBundle(usize),
    /// Run the entry of this number, a program, in the directory at this place.
    RunProgram(usize, Vec<String>),
    /// Look whether there is a file at this place.
    ProbeIndex(Vec<String>),
    /// Take hold of the record of the served ports, to see whether this one is
    /// served already.
    Claim(u16),
    /// Serve the directory at this place over this port, while the record is held.
    Serve(Vec<String>, u16),
    /// Show the page at this address, under this title.
    Show(String, String),
    /// Read the fullscreen preference.
    Recall,
    /// Make the window fullscreen.
    Fullscreen,
    /// Nothing more.
    Nothing,
}

#[verifier::ext_equal]
pub enum PlayActionFacts {
    Locate,
    List(Seq<Seq<char>>),
    OpenBundle(int),
    RunProgram(int, Seq<Seq<char>>),
    ProbeIndex(Seq<Seq<char>>),
    Claim(u16),
    Serve(Seq<Seq<char>>, u16),
    Show(Seq<char>, Seq<char>),
    Recall,
    Fullscreen,
    Nothing,
}

impl View for PlayAction {
    type V = PlayActionFacts;

    open spec fn view(&self) -> PlayActionFacts {
        match *self {
            PlayAction::Locate => PlayActionFacts::Locate,
            PlayAction::List(p) => PlayActionFacts::List(texts(p@)),
            PlayAction::OpenBundle(i) => PlayActionFacts::OpenBundle(i as int),
            PlayAction::RunProgram(i, p) => PlayActionFacts::RunProgram(i as int, texts(p@)),
            PlayAction::ProbeIndex(p) => PlayActionFacts::ProbeIndex(texts(p@)),
            PlayAction::Claim(port) => PlayActionFacts::Claim(port),
            PlayAction::Serve(p, port) => PlayActionFacts::Serve(texts(p@), port),
            PlayAction::Show(url, title) => PlayActionFacts::Show(url@, title@),
            PlayAction::Recall => PlayActionFacts::Recall,
            PlayAction::Fullscreen => PlayActionFacts::Fullscreen,
            PlayAction::Nothing => PlayActionFacts::Nothing,
        }
    }
}

/// What came of it.
pub enum PlayReply {
    /// It was done.
    Done,
    /// It failed.
    Failed(String),
    /// What it needs cannot be had: the record of the served ports, or the window.
    Missing,
    /// The names of the entries that were listed; nothing for a name that is no text.
    Entries(Vec<Option<String>>),
    /// Whether there is a file at the place that was looked at.
    Exists(bool),
    /// What the preference's file holds, where there is one.
    Contents(Option<String>),
}

pub enum PlayReplyFacts {
    Done,
    Failed(Seq<char>),
    Missing,
    Entries(Seq<Option<Seq<char>>>),
    Exists(bool),
    Contents(Option<Seq<char>>),
}

impl View for PlayReply {
    type V = PlayReplyFacts;

    open spec fn view(&self) -> PlayReplyFacts {
        match *self {
            PlayReply::Done => PlayReplyFacts::Done,
            PlayReply::Failed(e) => PlayReplyFacts::Failed(e@),
            PlayReply::Missing => PlayReplyFacts::Missing,
            PlayReply::Entries(entries) => PlayReplyFacts::Entries(names(entries@)),
            PlayReply::Exists(b) => PlayReplyFacts::Exists(b),
            PlayReply::Contents(c) => PlayReplyFacts::Contents(
                match c {
                    Some(text) => Some(text@),
                    None => None,
                },
            ),
        }
    }
}

// ---- What playing does -------------------------------------------------------------------

/// The address that a web game is shown at: its own port on this machine, a
/// stable origin for its saves.
pub open spec fn origin(port: u16) -> Seq<char> {
    "http://127.0.0.1:"@ + decimal(port as nat) + "/"@
}

/// The port that a game is served over.
pub open spec fn port_of(delivery: DeliveryFacts) -> Option<u16> {
    match delivery {
        DeliveryFacts::Web { port, .. } => Some(port),
        DeliveryFacts::Native { .. } => None,
    }
}

/// The playing of the game under a slug.
pub open spec fn play_of(slug: Seq<char>, platform: Platform) -> PlayFacts {
    match catalog_row(slug) {
        Some(game) => PlayFacts {
            slug,
            name: game.name,
            port: port_of(game.delivery),
            platform,
            stage: PlayStageFacts::Locate,
        },
        None => PlayFacts {
            slug,
            name: Seq::empty(),
            port: None,
            platform,
            stage: PlayStageFacts::Done(Err("unknown game"@)),
        },
    }
}

impl PlayFacts {
    /// The folder of the game.
    pub open spec fn place(self) -> Seq<Seq<char>> {
        seq!["games"@, self.slug]
    }

    /// What is to be done next.
    pub open spec fn action(self) -> PlayActionFacts {
        match self.stage {
            PlayStageFacts::Locate => PlayActionFacts::Locate,
            PlayStageFacts::List => PlayActionFacts::List(self.place()),
            PlayStageFacts::Launch(i) => if self.platform == Platform::Windows {
                PlayActionFacts::RunProgram(i, self.place())
            } else {
                PlayActionFacts::OpenBundle(i)
            },
            PlayStageFacts::ProbeIndex(_) => PlayActionFacts::ProbeIndex(
                self.place().push("index.html"@),
            ),
            PlayStageFacts::Claim(port) => PlayActionFacts::Claim(port),
            PlayStageFacts::Serve(port) => PlayActionFacts::Serve(self.place(), port),
            PlayStageFacts::Show(port) => PlayActionFacts::Show(origin(port), self.name),
            PlayStageFacts::Recall => PlayActionFacts::Recall,
            PlayStageFacts::Fullscreen => PlayActionFacts::Fullscreen,
            PlayStageFacts::Done(_) => PlayActionFacts::Nothing,
        }
    }

    /// What follows once the launcher's data is found.
    pub open spec fn located(self) -> PlayStageFacts {
        match self.port {
            Some(port) => PlayStageFacts::ProbeIndex(port),
            None => if launchable(self.platform) is Some {
                PlayStageFacts::List
            } else {
                PlayStageFacts::Done(Err("native games aren't supported on this platform"@))
            },
        }
    }

    /// What follows once the entries of a native game's folder are listed.
    pub open spec fn listed(self, entries: Seq<Option<Seq<char>>>) -> PlayStageFacts {
        match launchable(self.platform) {
            Some(ext) => match entry_with(entries, ext) {
                Some(i) => PlayStageFacts::Launch(i as int),
                None => PlayStageFacts::Done(Err("that game isn't installed yet"@)),
            },
            None => PlayStageFacts::Done(Err("native games aren't supported on this platform"@)),
        }
    }

    /// How far the playing has come once `reply` has come. A reply that does not
    /// belong to what was to be done changes nothing. `ports` are those on the
    /// record of the served ports, while it is held.
    pub open spec fn stage_after(
        self,
        reply: PlayReplyFacts,
        ports: Option<Set<u16>>,
    ) -> PlayStageFacts {
        match (self.stage, reply) {
            (PlayStageFacts::Locate, PlayReplyFacts::Done) => self.located(),
            (PlayStageFacts::List, PlayReplyFacts::Entries(entries)) => self.listed(entries),
            (PlayStageFacts::Launch(_), PlayReplyFacts::Done) => PlayStageFacts::Done(Ok(())),
            (PlayStageFacts::ProbeIndex(port), PlayReplyFacts::Exists(there)) => if there {
                PlayStageFacts::Claim(port)
            } else {
                PlayStageFacts::Done(Err("that game isn't installed yet"@))
            },
            (PlayStageFacts::Claim(port), PlayReplyFacts::Done) => match ports {
                Some(bound) => if bound.contains(port) {
                    PlayStageFacts::Show(port)
                } else {
                    PlayStageFacts::Serve(port)
                },
                None => self.stage,
            },
            (PlayStageFacts::Claim(_), PlayReplyFacts::Missing) => PlayStageFacts::Done(
                Err("server lock poisoned"@),
            ),
            (PlayStageFacts::Serve(port), PlayReplyFacts::Done) => if ports is Some {
                PlayStageFacts::Show(port)
            } else {
                self.stage
            },
            (PlayStageFacts::Show(_), PlayReplyFacts::Done) => PlayStageFacts::Recall,
            (PlayStageFacts::Show(_), PlayReplyFacts::Missing) => PlayStageFacts::Done(
                Err("no window"@),
            ),
            (PlayStageFacts::Recall, PlayReplyFacts::Contents(contents)) => if preference(
                contents,
            ) {
                PlayStageFacts::Fullscreen
            } else {
                PlayStageFacts::Done(Ok(()))
            },
            // A window that cannot be made fullscreen is no error.
            (PlayStageFacts::Fullscreen, PlayReplyFacts::Done)
            | (PlayStageFacts::Fullscreen, PlayReplyFacts::Failed(_)) => {
                PlayStageFacts::Done(Ok(()))
            },
            (PlayStageFacts::Locate, PlayReplyFacts::Failed(e))
            | (PlayStageFacts::Launch(_), PlayReplyFacts::Failed(e))
            | (PlayStageFacts::Serve(_), PlayReplyFacts::Failed(e))
            | (PlayStageFacts::Show(_), PlayReplyFacts::Failed(e)) => {
                PlayStageFacts::Done(Err(e))
            },
            _ => self.stage,
        }
    }

    /// The playing once `reply` has come.
    pub open spec fn after(self, reply: PlayReplyFacts, ports: Option<Set<u16>>) -> PlayFacts {
        PlayFacts { stage: self.stage_after(reply, ports), ..self }
    }

    /// The record of the served ports once `reply` has come: a port is added where
    /// the serving of it succeeded, and nothing else changes it.
    pub open spec fn ports_after(self, reply: PlayReplyFacts, ports: Set<u16>) -> Set<u16> {
        match (self.stage, reply) {
            (PlayStageFacts::Serve(port), PlayReplyFacts::Done) => ports.insert(port),
            _ => ports,
        }
    }

    /// How it ended, once it has.
    pub open spec fn outcome(self) -> Option<Result<(), Seq<char>>> {
        match self.stage {
            PlayStageFacts::Done(r) => Some(r),
            _ => None,
        }
    }
}

// ---- Playing -------------------------------------------------------------------------------

/// The address that a web game is shown at.
pub fn game_url(port: u16) -> (url: String)
    ensures
        url@ == origin(port),
{
    let mut url = "http://127.0.0.1:".to_owned();
    url.append(decimal_text(port as u64).as_str());
    url.append("/");
    url
}

/// Starts the playing of the game under a slug.
pub fn play(slug: &str, platform: Platform) -> (play: Play)
    ensures
        play@ == play_of(slug@, platform),
{
    match game_by_slug(slug) {
        Some(game) => {
            let port = match &game.delivery {
                Delivery::Web { port, .. } => Some(*port),
                Delivery::Native { .. } => None,
            };
            Play {
                slug: slug.to_owned(),
                name: game.name.to_owned(),
                port,
                platform,
                stage: PlayStage::Locate,
            }
        },
        None => Play {
            slug: slug.to_owned(),
            name: String::new(),
            port: None,
            platform,
            stage: PlayStage::Done(Err("unknown game".to_owned())),
        },
    }
}

/// What follows once the entries of a native game's folder are listed: the entry
/// to launch, or why there is none.
pub fn launch_native(platform: Platform, entries: &Vec<Option<String>>) -> (entry: Result<
    usize,
    String,
>)
    ensures
        (match entry {
            Ok(i) => Ok::<int, Seq<char>>(i as int),
            Err(e) => Err(e@),
        }) == (match launchable(platform) {
            Some(ext) => match entry_with(names(entries@), ext) {
                Some(i) => Ok::<int, Seq<char>>(i as int),
                None => Err("that game isn't installed yet"@),
            },
            None => Err("native games aren't supported on this platform"@),
        }),
{
    let found = match platform {
        Platform::Mac => find_entry(entries, "app"),
        Platform::Windows => find_entry(entries, "exe"),
        Platform::Other => {
            return Err("native games aren't supported on this platform".to_owned());
        },
    };
    match found {
        Some(i) => Ok(i),
        None => Err("that game isn't installed yet".to_owned()),
    }
}

impl Play {
    /// What is to be done next.
    pub fn action(&self) -> (action: PlayAction)
        ensures
            action@ == self@.action(),
    {
        let slug = self.slug.as_str();
        match &self.stage {
            PlayStage::Locate => PlayAction::Locate,
            PlayStage::List => PlayAction::List(game_dir(slug)),
            PlayStage::Launch(i) => match self.platform {
                Platform::Windows => PlayAction::RunProgram(*i, game_dir(slug)),
                _ => PlayAction::OpenBundle(*i),
            },
            PlayStage::ProbeIndex(_) => {
                let mut parts = game_dir(slug);
                let ghost before = parts@;
                parts.push("index.html".to_owned());
                assert(texts(parts@) =~= texts(before).push("index.html"@));
                PlayAction::ProbeIndex(parts)
            },
            PlayStage::Claim(port) => PlayAction::Claim(*port),
            PlayStage::Serve(port) => PlayAction::Serve(game_dir(slug), *port),
            PlayStage::Show(port) => PlayAction::Show(game_url(*port), self.name.clone()),
            PlayStage::Recall => PlayAction::Recall,
            PlayStage::Fullscreen => PlayAction::Fullscreen,
            PlayStage::Done(_) => PlayAction::Nothing,
        }
    }

    /// What follows once the launcher's data is found.
    fn located(port: Option<u16>, platform: Platform) -> (stage: PlayStage)
        ensures
            stage@ == (match port {
                Some(p) => PlayStageFacts::ProbeIndex(p),
                None => if launchable(platform) is Some {
                    PlayStageFacts::List
                } else {
                    PlayStageFacts::Done(Err("native games aren't supported on this platform"@))
                },
            }),
    {
        match port {
            Some(p) => PlayStage::ProbeIndex(p),
            None => match platform {
                Platform::Other => PlayStage::Done(
                    Err("native games aren't supported on this platform".to_owned()),
                ),
                _ => PlayStage::List,
            },
        }
    }

    /// The playing once `reply` has come, while the record of the served ports is
    /// held. The record is read and kept here alone.
    pub fn next_holding(self, reply: PlayReply, ports: &mut Ports) -> (play: Play)
        ensures
            play@ == self@.after(reply@, Some(old(ports)@)),
            final(ports)@ == self@.ports_after(reply@, old(ports)@),
    {
        let Play { slug, name, port, platform, stage } = self;
        match (stage, reply) {
            (PlayStage::Claim(p), PlayReply::Done) => {
                let stage = if ports.is_bound(p) {
                    PlayStage::Show(p)
                } else {
                    PlayStage::Serve(p)
                };
                Play { slug, name, port, platform, stage }
            },
            (PlayStage::Serve(p), PlayReply::Done) => {
                ports.bind(p);
                Play { slug, name, port, platform, stage: PlayStage::Show(p) }
            },
            (stage, reply) => Play { slug, name, port, platform, stage }.next(reply),
        }
    }

    /// The playing once `reply` has come, while the record of the served ports is
    /// not held. The steps that need the record wait for it.
    pub fn next(self, reply: PlayReply) -> (play: Play)
        ensures
            play@ == self@.after(reply@, None),
    {
        let Play { slug, name, port, platform, stage } = self;
        let stage = match (stage, reply) {
            (PlayStage::Locate, PlayReply::Done) => Play::located(port, platform),
            (PlayStage::List, PlayReply::Entries(entries)) => {
                match launch_native(platform, &entries) {
                    Ok(i) => PlayStage::Launch(i),
                    Err(e) => PlayStage::Done(Err(e)),
                }
            },
            (PlayStage::Launch(_), PlayReply::Done) => PlayStage::Done(Ok(())),
            (PlayStage::ProbeIndex(p), PlayReply::Exists(there)) => {
                if there {
                    PlayStage::Claim(p)
                } else {
                    PlayStage::Done(Err("that game isn't installed yet".to_owned()))
                }
            },
            (PlayStage::Claim(_), PlayReply::Missing) => PlayStage::Done(
                Err("server lock poisoned".to_owned()),
            ),
            (PlayStage::Show(_), PlayReply::Done) => PlayStage::Recall,
            (PlayStage::Show(_), PlayReply::Missing) => PlayStage::Done(
                Err("no window".to_owned()),
            ),
            (PlayStage::Recall, PlayReply::Contents(contents)) => {
                let held = match &contents {
                    Some(text) => Some(text.as_str()),
                    None => None,
                };
                if read_fs_pref(held) {
                    PlayStage::Fullscreen
                } else {
                    PlayStage::Done(Ok(()))
                }
            },
            (PlayStage::Fullscreen, PlayReply::Done)
            | (PlayStage::Fullscreen, PlayReply::Failed(_)) => PlayStage::Done(Ok(())),
            (PlayStage::Locate, PlayReply::Failed(e))
            | (PlayStage::Launch(_), PlayReply::Failed(e))
            | (PlayStage::Serve(_), PlayReply::Failed(e))
            | (PlayStage::Show(_), PlayReply::Failed(e)) => PlayStage::Done(Err(e)),
            (stage, _) => stage,
        };
        Play { slug, name, port, platform, stage }
    }

    /// How it ended, once it has.
    pub fn outcome(&self) -> (outcome: Option<Result<(), String>>)
        ensures
            (match outcome {
                Some(r) => Some(outcome_told(r)),
                None => None,
            }) == self@.outcome(),
    {
        match &self.stage {
            PlayStage::Done(Ok(_)) => Some(Ok(())),
            PlayStage::Done(Err(e)) => Some(Err(e.clone())),
            _ => None,
        }
    }
}

// ---- Laws ------------------------------------------------------------------------------------

/// A reply, with the ports on the record where the record is held.
pub struct StepFacts {
    pub reply: PlayReplyFacts,
    pub ports: Option<Set<u16>>,
}

impl PlayFacts {
    /// The playing once all these replies have come, one after another.
    pub open spec fn run(self, steps: Seq<StepFacts>) -> PlayFacts
        decreases steps.len(),
    {
        if steps.len() == 0 {
            self
        } else {
            self.run(steps.drop_last()).after(steps.last().reply, steps.last().ports)
        }
    }

    /// What has been done and replied to, in order.
    pub open spec fn trail(self, steps: Seq<StepFacts>) -> Seq<PlayActionFacts>
        decreases steps.len(),
    {
        if steps.len() == 0 {
            Seq::empty()
        } else {
            let before = self.run(steps.drop_last());
            let trail = self.trail(steps.drop_last());
            if before.after(steps.last().reply, steps.last().ports).stage == before.stage {
                trail
            } else {
                trail.push(before.action())
            }
        }
    }

    /// The number of the entry that was picked out of those that were listed.
    pub open spec fn picked_entry(self, steps: Seq<StepFacts>) -> int
        decreases steps.len(),
    {
        if steps.len() == 0 {
            0
        } else {
            let before = self.run(steps.drop_last());
            match (before.stage, steps.last().reply) {
                (PlayStageFacts::List, PlayReplyFacts::Entries(entries)) => match before.listed(
                    entries,
                ) {
                    PlayStageFacts::Launch(i) => i,
                    _ => self.picked_entry(steps.drop_last()),
                },
                _ => self.picked_entry(steps.drop_last()),
            }
        }
    }

    /// Whether the port was not on the record of the served ports.
    pub open spec fn was_fresh(self, steps: Seq<StepFacts>) -> bool
        decreases steps.len(),
    {
        if steps.len() == 0 {
            false
        } else {
            let before = self.run(steps.drop_last());
            match (before.stage, steps.last().reply, steps.last().ports) {
                (PlayStageFacts::Claim(port), PlayReplyFacts::Done, Some(bound)) => !bound.contains(
                    port,
                ),
                _ => self.was_fresh(steps.drop_last()),
            }
        }
    }

    /// Whether the fullscreen preference said so.
    pub open spec fn was_full(self, steps: Seq<StepFacts>) -> bool
        decreases steps.len(),
    {
        if steps.len() == 0 {
            false
        } else {
            let before = self.run(steps.drop_last());
            match (before.stage, steps.last().reply) {
                (PlayStageFacts::Recall, PlayReplyFacts::Contents(contents)) => preference(contents),
                _ => self.was_full(steps.drop_last()),
            }
        }
    }

    /// What is done to run a native game.
    pub open spec fn native_trail(self, entry: int) -> Seq<PlayActionFacts> {
        seq![
            PlayActionFacts::Locate,
            PlayActionFacts::List(self.place()),
            if self.platform == Platform::Windows {
                PlayActionFacts::RunProgram(entry, self.place())
            } else {
                PlayActionFacts::OpenBundle(entry)
            },
        ]
    }

    /// What is done to show a web game. `fresh` says whether its port was not
    /// served before, `full` whether the window is made fullscreen.
    pub open spec fn web_trail(self, port: u16, fresh: bool, full: bool) -> Seq<PlayActionFacts> {
        let claimed = seq![
            PlayActionFacts::Locate,
            PlayActionFacts::ProbeIndex(self.place().push("index.html"@)),
            PlayActionFacts::Claim(port),
        ];
        let served = if fresh {
            claimed.push(PlayActionFacts::Serve(self.place(), port))
        } else {
            claimed
        };
        let shown = served.push(PlayActionFacts::Show(origin(port), self.name)).push(
            PlayActionFacts::Recall,
        );
        if full {
            shown.push(PlayActionFacts::Fullscreen)
        } else {
            shown
        }
    }

    /// A native game is at a step of a native game's, and a web game at one of a
    /// web game's, with its own port.
    pub open spec fn keeps_to_delivery(self) -> bool {
        match self.stage {
            PlayStageFacts::List => self.port is None,
            PlayStageFacts::Launch(_) => self.port is None,
            PlayStageFacts::ProbeIndex(p) => self.port == Some(p),
            PlayStageFacts::Claim(p) => self.port == Some(p),
            PlayStageFacts::Serve(p) => self.port == Some(p),
            PlayStageFacts::Show(p) => self.port == Some(p),
            PlayStageFacts::Recall => self.port is Some,
            PlayStageFacts::Fullscreen => self.port is Some,
            _ => true,
        }
    }

    /// The playing is of the game under its slug.
    pub open spec fn is_of_its_game(self) -> bool {
        let start = play_of(self.slug, self.platform);
        self.port == start.port && self.name == start.name && self.keeps_to_delivery()
    }

    /// The trail is the one that leads to the stage, so far as there is one.
    spec fn on_course(self, entry: int, fresh: bool, full: bool, trail: Seq<PlayActionFacts>) -> bool {
        let native = self.native_trail(entry);
        let web = self.web_trail(self.port->0, fresh, full);
        let n: int = if fresh {
            4
        } else {
            3
        };
        match self.stage {
            PlayStageFacts::Locate => trail == native.take(0),
            PlayStageFacts::List => self.port is None && trail == native.take(1),
            PlayStageFacts::Launch(i) => self.port is None && i == entry && trail == native.take(2),
            PlayStageFacts::ProbeIndex(p) => self.port == Some(p) && trail == web.take(1),
            PlayStageFacts::Claim(p) => self.port == Some(p) && trail == web.take(2),
            PlayStageFacts::Serve(p) => self.port == Some(p) && fresh && trail == web.take(3),
            PlayStageFacts::Show(p) => self.port == Some(p) && trail == web.take(n),
            PlayStageFacts::Recall => self.port is Some && trail == web.take(n + 1),
            PlayStageFacts::Fullscreen => self.port is Some && full && trail == web.take(n + 2),
            PlayStageFacts::Done(Ok(_)) => trail == if self.port is Some {
                web
            } else {
                native
            },
            PlayStageFacts::Done(Err(_)) => true,
        }
    }
}

/// Each web game of the catalog has an origin of its own, so that no game reads
/// the saves of another.
pub proof fn law_save_origins_distinct(i: int, j: int)
    requires
        0 <= i < catalog_rows().len(),
        0 <= j < catalog_rows().len(),
        catalog_rows()[i].delivery is Web,
        catalog_rows()[j].delivery is Web,
        origin(catalog_rows()[i].delivery->port) == origin(catalog_rows()[j].delivery->port),
    ensures
        i == j,
{
    let a = catalog_rows()[i].delivery->port;
    let b = catalog_rows()[j].delivery->port;
    law_origin_distinct(a, b);
    law_ports_distinct(i, j);
}

/// Different ports are different origins.
pub proof fn law_origin_distinct(a: u16, b: u16)
    requires
        origin(a) == origin(b),
    ensures
        a == b,
{
    let front = "http://127.0.0.1:"@;
    let back = "/"@;
    let x = decimal(a as nat);
    let y = decimal(b as nat);
    assert(origin(a).len() == front.len() + x.len() + back.len());
    assert(origin(b).len() == front.len() + y.len() + back.len());
    assert(origin(a).subrange(front.len() as int, (front.len() + x.len()) as int) =~= x);
    assert(origin(b).subrange(front.len() as int, (front.len() + y.len()) as int) =~= y);
    law_decimal_distinct(a as nat, b as nat);
}

/// Whatever replies come, a native game is only ever run as a process of its own,
/// and the window stays with the library; a web game is only ever served and shown,
/// and only over its own port.
pub proof fn law_delivery_decides(slug: Seq<char>, platform: Platform, steps: Seq<StepFacts>)
    ensures
        ({
            let play = play_of(slug, platform).run(steps);
            play.slug == slug && play.platform == platform && play.is_of_its_game()
        }),
    decreases steps.len(),
{
    if steps.len() > 0 {
        law_delivery_decides(slug, platform, steps.drop_last());
    }
}

proof fn lemma_on_course(slug: Seq<char>, platform: Platform, steps: Seq<StepFacts>)
    requires
        catalog_row(slug) is Some,
    ensures
        ({
            let start = play_of(slug, platform);
            start.run(steps).on_course(
                start.picked_entry(steps),
                start.was_fresh(steps),
                start.was_full(steps),
                start.trail(steps),
            )
        }),
    decreases steps.len(),
{
    let start = play_of(slug, platform);
    if steps.len() == 0 {
        assert(start.trail(steps) =~= start.native_trail(0).take(0));
    } else {
        let rest = steps.drop_last();
        lemma_on_course(slug, platform, rest);
        let before = start.run(rest);
        let after = start.run(steps);
        let fresh = start.was_fresh(steps);
        let full = start.was_full(steps);
        let u = start.trail(steps);
        let n: int = if fresh {
            4
        } else {
            3
        };
        let native = before.native_trail(start.picked_entry(steps));
        let web = before.web_trail(before.port->0, fresh, full);
        if after.stage != before.stage {
            match before.stage {
                PlayStageFacts::Locate => {
                    assert(u =~= native.take(1));
                    assert(u =~= web.take(1));
                },
                PlayStageFacts::List => {
                    assert(u =~= native.take(2));
                },
                PlayStageFacts::Launch(_) => {
                    assert(u =~= native);
                },
                PlayStageFacts::ProbeIndex(_) => {
                    assert(u =~= web.take(2));
                },
                PlayStageFacts::Claim(_) => {
                    assert(u =~= web.take(3));
                },
                PlayStageFacts::Serve(_) => {
                    assert(u =~= web.take(4));
                },
                PlayStageFacts::Show(_) => {
                    assert(u =~= web.take(n + 1));
                },
                PlayStageFacts::Recall => {
                    assert(u =~= web.take(n + 2));
                    assert(!full ==> web.take(n + 2) =~= web);
                },
                PlayStageFacts::Fullscreen => {
                    assert(u =~= web);
                },
                PlayStageFacts::Done(_) => {},
            }
        }
    }
}

proof fn lemma_unknown_stays(slug: Seq<char>, platform: Platform, steps: Seq<StepFacts>)
    requires
        catalog_row(slug) is None,
    ensures
        play_of(slug, platform).run(steps) == play_of(slug, platform),
    decreases steps.len(),
{
    if steps.len() > 0 {
        lemma_unknown_stays(slug, platform, steps.drop_last());
    }
}

/// A game that was played was run or shown, in order: a native one as the process
/// of the entry that was picked; a web one over its own port, served first where
/// the port was not on the record, then shown, and made fullscreen last where the
/// preference said so.
pub proof fn law_played_in_order(slug: Seq<char>, platform: Platform, steps: Seq<StepFacts>)
    ensures
        ({
            let start = play_of(slug, platform);
            start.run(steps).outcome() == Some(Ok::<(), Seq<char>>(())) ==> start.trail(steps)
                == (match start.port {
                Some(port) => start.web_trail(port, start.was_fresh(steps), start.was_full(steps)),
                None => start.native_trail(start.picked_entry(steps)),
            })
        }),
{
    law_delivery_decides(slug, platform, steps);
    if catalog_row(slug) is Some {
        lemma_on_course(slug, platform, steps);
    } else {
        lemma_unknown_stays(slug, platform, steps);
    }
}

// ---- A session of many plays ---------------------------------------------------------------------

/// What happens in a session: a game is played, or a reply comes to what the
/// playing of the last one was to do.
pub enum SessionEvent {
    Play(Seq<char>, Platform),
    Reply(PlayReplyFacts),
}

/// The game that is being played, the record of the served ports, and the ports
/// of the servings that succeeded, in order.
pub struct SessionFacts {
    pub play: Option<PlayFacts>,
    pub ports: Set<u16>,
    pub served: Seq<u16>,
}

impl SessionFacts {
    /// The session after an event.
    pub open spec fn after(self, event: SessionEvent) -> SessionFacts {
        match (event, self.play) {
            (SessionEvent::Play(slug, platform), _) => SessionFacts {
                play: Some(play_of(slug, platform)),
                ..self
            },
            (SessionEvent::Reply(reply), Some(play)) => SessionFacts {
                play: Some(play.after(reply, Some(self.ports))),
                ports: play.ports_after(reply, self.ports),
                served: match (play.stage, reply) {
                    (PlayStageFacts::Serve(port), PlayReplyFacts::Done) => self.served.push(port),
                    _ => self.served,
                },
            },
            (SessionEvent::Reply(_), None) => self,
        }
    }
}

/// The session after all these events, from one in which nothing is served.
pub open spec fn session(events: Seq<SessionEvent>) -> SessionFacts
    decreases events.len(),
{
    if events.len() == 0 {
        SessionFacts { play: None, ports: Set::empty(), served: Seq::empty() }
    } else {
        session(events.drop_last()).after(events.last())
    }
}

/// However many games are played in a session, each port is served at most once,
/// and the record holds exactly the ports that are served.
pub proof fn law_ports_over_session(events: Seq<SessionEvent>)
    ensures
        session(events).served.no_duplicates(),
        forall|port: u16| #[trigger]
            session(events).ports.contains(port) <==> session(events).served.contains(port),
        session(events).play matches Some(play) ==> play.is_of_its_game() && (
        play.stage matches PlayStageFacts::Serve(port) ==> !session(events).ports.contains(port)),
    decreases events.len(),
{
    if events.len() > 0 {
        let before = session(events.drop_last());
        let after = session(events);
        law_ports_over_session(events.drop_last());
        if after.served != before.served {
            let port = after.served.last();
            assert(after.served == before.served.push(port));
            assert forall|p: u16| #[trigger]
                after.ports.contains(p) <==> after.served.contains(p) by {
                if before.served.contains(p) {
                    let k = choose|k: int| 0 <= k < before.served.len() && before.served[k] == p;
                    assert(after.served[k] == p);
                }
                if p == port {
                    assert(after.served[before.served.len() as int] == p);
                }
                if after.served.contains(p) && p != port {
                    let k = choose|k: int| 0 <= k < after.served.len() && after.served[k] == p;
                    assert(before.served[k] == p);
                }
            }
        }
    }
}

/// A serving that fails is told as it failed and leaves the record as it was; and
/// when the same game is played again, it is served again.
pub proof fn law_failed_serving_tried_again(events: Seq<SessionEvent>, port: u16, e: Seq<char>)
    requires
        session(events).play matches Some(play) && play.stage == PlayStageFacts::Serve(port),
    ensures
        ({
            let play = session(events).play->0;
            let failed = events.push(SessionEvent::Reply(PlayReplyFacts::Failed(e)));
            let again = failed.push(SessionEvent::Play(play.slug, play.platform)).push(
                SessionEvent::Reply(PlayReplyFacts::Done),
            ).push(SessionEvent::Reply(PlayReplyFacts::Exists(true))).push(
                SessionEvent::Reply(PlayReplyFacts::Done),
            );
            &&& session(failed).play->0.outcome() == Some(Err::<(), Seq<char>>(e))
            &&& session(failed).ports == session(events).ports
            &&& session(failed).served == session(events).served
            &&& session(again).play->0.action() == PlayActionFacts::Serve(play.place(), port)
        }),
{
    law_ports_over_session(events);
    let play = session(events).play->0;
    let failed = events.push(SessionEvent::Reply(PlayReplyFacts::Failed(e)));
    let started = failed.push(SessionEvent::Play(play.slug, play.platform));
    let located = started.push(SessionEvent::Reply(PlayReplyFacts::Done));
    let found = located.push(SessionEvent::Reply(PlayReplyFacts::Exists(true)));
    let again = found.push(SessionEvent::Reply(PlayReplyFacts::Done));
    assert(failed.drop_last() =~= events);
    assert(started.drop_last() =~= failed);
    assert(located.drop_last() =~= started);
    assert(found.drop_last() =~= located);
    assert(again.drop_last() =~= found);
    assert(session(started).play == Some(play_of(play.slug, play.platform)));
    assert(session(located).play->0.stage == PlayStageFacts::ProbeIndex(port));
    assert(session(found).play->0.stage == PlayStageFacts::Claim(port));
}

/// A web game whose port is on the record is shown without being served again, and
/// one whose port is not is served; and the record is not needed for anything else.
pub proof fn law_served_once(play: PlayFacts, reply: PlayReplyFacts, ports: Set<u16>)
    ensures
        play.stage matches PlayStageFacts::Claim(port) ==> play.after(
            PlayReplyFacts::Done,
            Some(ports),
        ).action() == (if ports.contains(port) {
            PlayActionFacts::Show(origin(port), play.name)
        } else {
            PlayActionFacts::Serve(play.place(), port)
        }),
        !((play.stage is Claim || play.stage is Serve) && reply is Done) ==> play.after(
            reply,
            None,
        ) == play.after(reply, Some(ports)) && play.ports_after(reply, ports) == ports,
{
}

// ---- Step by step --------------------------------------------------------------------------------

/// The playing of what is not in the catalog has failed; that of a game starts under
/// the game's own name, with the port of a web game and with none for a native one.
pub proof fn law_play_starts(slug: Seq<char>, platform: Platform)
    ensures
        ({
            let play = play_of(slug, platform);
            &&& play.slug == slug
            &&& play.platform == platform
            &&& match catalog_row(slug) {
                Some(game) => play.action() is Locate && play.outcome() is None && play.name
                    == game.name && play.port == (match game.delivery {
                    DeliveryFacts::Web { port, .. } => Some(port),
                    DeliveryFacts::Native { .. } => None,
                }),
                None => play.outcome() == Some(Err::<(), Seq<char>>("unknown game"@)),
            }
        }),
{
}

/// The entry that a native game is launched from is the first that is an `.app` on
/// a Mac or an `.exe` on Windows; and where there is none, the game is not installed.
pub proof fn law_launched_entry(play: PlayFacts, entries: Seq<Option<Seq<char>>>)
    requires
        play.stage is List,
        play.platform != Platform::Other,
    ensures
        ({
            let next = play.after(PlayReplyFacts::Entries(entries), None);
            match next.action() {
                PlayActionFacts::OpenBundle(i) => {
                    &&& play.platform == Platform::Mac
                    &&& 0 <= i < entries.len()
                    &&& ends_launchable(play.platform, entries[i])
                    &&& forall|k: int|
                        0 <= k < i ==> !ends_launchable(play.platform, #[trigger] entries[k])
                },
                PlayActionFacts::RunProgram(i, dir) => {
                    &&& play.platform == Platform::Windows
                    &&& dir == seq!["games"@, play.slug]
                    &&& 0 <= i < entries.len()
                    &&& ends_launchable(play.platform, entries[i])
                    &&& forall|k: int|
                        0 <= k < i ==> !ends_launchable(play.platform, #[trigger] entries[k])
                },
                _ => {
                    &&& next.outcome() == Some(
                        Err::<(), Seq<char>>("that game isn't installed yet"@),
                    )
                    &&& forall|k: int|
                        0 <= k < entries.len() ==> !ends_launchable(
                            play.platform,
                            #[trigger] entries[k],
                        )
                },
            }
        }),
{
    lemma_launchable(play.platform, None);
    let ext = launchable(play.platform)->0;
    law_first_entry(entries, ext);
    assert forall|k: int| 0 <= k < entries.len() implies ends_launchable(
        play.platform,
        #[trigger] entries[k],
    ) == has_extension(entries[k], ext) by {
        lemma_launchable(play.platform, entries[k]);
    }
}

/// The playing of a game step by step: what each reply to what was to be done leads
/// to. A reply that does not belong to it changes nothing.
pub proof fn law_play_step_by_step(play: PlayFacts, reply: PlayReplyFacts, ports: Set<u16>)
    ensures
        ({
            let next = play.after(reply, Some(ports));
            let dir = seq!["games"@, play.slug];
            let page = |port: u16|
                PlayActionFacts::Show(
                    "http://127.0.0.1:"@ + decimal(port as nat) + "/"@,
                    play.name,
                );
            &&& next.slug == play.slug
            &&& next.name == play.name
            &&& next.port == play.port
            &&& next.platform == play.platform
            &&& !(play.action() is Serve && reply is Done) ==> play.ports_after(reply, ports)
                == ports
            &&& match (play.action(), reply) {
                (PlayActionFacts::Locate, PlayReplyFacts::Done) => match play.port {
                    Some(_) => next.action() == PlayActionFacts::ProbeIndex(
                        seq!["games"@, play.slug, "index.html"@],
                    ),
                    None => if play.platform == Platform::Other {
                        next.outcome() == Some(
                            Err::<(), Seq<char>>("native games aren't supported on this platform"@),
                        )
                    } else {
                        next.action() == PlayActionFacts::List(dir)
                    },
                },
                (PlayActionFacts::List(_), PlayReplyFacts::Entries(_)) => true,
                (PlayActionFacts::OpenBundle(_), PlayReplyFacts::Done)
                | (PlayActionFacts::RunProgram(_, _), PlayReplyFacts::Done) => next.outcome()
                    == Some(Ok::<(), Seq<char>>(())),
                (PlayActionFacts::ProbeIndex(_), PlayReplyFacts::Exists(there)) => if there {
                    next.action() == PlayActionFacts::Claim(play.stage->ProbeIndex_0)
                } else {
                    next.outcome() == Some(Err::<(), Seq<char>>("that game isn't installed yet"@))
                },
                (PlayActionFacts::Claim(port), PlayReplyFacts::Done) => next.action() == (if ports.contains(
                    port,
                ) {
                    page(port)
                } else {
                    PlayActionFacts::Serve(dir, port)
                }),
                (PlayActionFacts::Claim(_), PlayReplyFacts::Missing) => next.outcome() == Some(
                    Err::<(), Seq<char>>("server lock poisoned"@),
                ),
                (PlayActionFacts::Serve(_, port), PlayReplyFacts::Done) => next.action() == page(port)
                    && play.ports_after(reply, ports) == ports.insert(port),
                (PlayActionFacts::Show(_, _), PlayReplyFacts::Done) => next.action() is Recall,
                (PlayActionFacts::Show(_, _), PlayReplyFacts::Missing) => next.outcome() == Some(
                    Err::<(), Seq<char>>("no window"@),
                ),
                (PlayActionFacts::Recall, PlayReplyFacts::Contents(contents)) => if preference(
                    contents,
                ) {
                    next.action() is Fullscreen
                } else {
                    next.outcome() == Some(Ok::<(), Seq<char>>(()))
                },
                (PlayActionFacts::Fullscreen, PlayReplyFacts::Done)
                | (PlayActionFacts::Fullscreen, PlayReplyFacts::Failed(_)) => next.outcome()
                    == Some(Ok::<(), Seq<char>>(())),
                (PlayActionFacts::Locate, PlayReplyFacts::Failed(e))
                | (PlayActionFacts::OpenBundle(_), PlayReplyFacts::Failed(e))
                | (PlayActionFacts::RunProgram(_, _), PlayReplyFacts::Failed(e))
                | (PlayActionFacts::Serve(_, _), PlayReplyFacts::Failed(e))
                | (PlayActionFacts::Show(_, _), PlayReplyFacts::Failed(e)) => next.outcome()
                    == Some(Err::<(), Seq<char>>(e)),
                _ => next == play,
            }
        }),
{
    assert(play.place().push("index.html"@) =~= seq!["games"@, play.slug, "index.html"@]);
}

/// What is to be done and what came of it is taken as it is given.
pub proof fn law_play_words(
    text: String,
    title: String,
    p: Vec<String>,
    entries: Vec<Option<String>>,
    contents: Option<String>,
    i: usize,
    port: u16,
    yes: bool,
)
    ensures
        PlayAction::Locate@ == PlayActionFacts::Locate,
        PlayAction::List(p)@ == PlayActionFacts::List(texts(p@)),
        PlayAction::OpenBundle(i)@ == PlayActionFacts::OpenBundle(i as int),
        PlayAction::RunProgram(i, p)@ == PlayActionFacts::RunProgram(i as int, texts(p@)),
        PlayAction::ProbeIndex(p)@ == PlayActionFacts::ProbeIndex(texts(p@)),
        PlayAction::Claim(port)@ == PlayActionFacts::Claim(port),
        PlayAction::Serve(p, port)@ == PlayActionFacts::Serve(texts(p@), port),
        PlayAction::Show(text, title)@ == PlayActionFacts::Show(text@, title@),
        PlayAction::Recall@ == PlayActionFacts::Recall,
        PlayAction::Fullscreen@ == PlayActionFacts::Fullscreen,
        PlayAction::Nothing@ == PlayActionFacts::Nothing,
        PlayReply::Done@ == PlayReplyFacts::Done,
        PlayReply::Failed(text)@ == PlayReplyFacts::Failed(text@),
        PlayReply::Missing@ == PlayReplyFacts::Missing,
        PlayReply::Entries(entries)@ == PlayReplyFacts::Entries(names(entries@)),
        PlayReply::Exists(yes)@ == PlayReplyFacts::Exists(yes),
        PlayReply::Contents(contents)@ == PlayReplyFacts::Contents(
            match contents {
                Some(c) => Some(c@),
                None => None,
            },
        ),
{
}

/// Without the record of the served ports nothing that needs it goes on.
pub proof fn law_record_needed(play: PlayFacts)
    requires
        play.stage is Claim || play.stage is Serve,
    ensures
        play.after(PlayReplyFacts::Done, None) == play,
{
}

} // verus!
