//! The games and tools that the launcher knows, baked in.

use crate::platform::Platform;
use crate::search::{first, lemma_first, lemma_first_found};
use crate::text::same_text;
use vstd::prelude::*;

verus! {

/// How a game reaches the machine and is run.
pub enum Delivery {
    /// A web bundle, served in the launcher's own window over `port` (a stable
    /// save origin).
    Web { asset: &'static str, port: u16 },
    /// A native build per platform, installed and run as its own process.
    Native { mac: &'static str, windows: &'static str },
}

/// A large file that a game needs and that does not come down again with every
/// update: it is kept beside the game's own saves, outside the game's folder.
pub struct Payload {
    /// The tag of the fixed release that carries the file.
    pub tag: &'static str,
    /// The endings of the names of the release assets to fetch.
    pub assets: Vec<&'static str>,
    /// The directory where the game itself keeps its saves.
    pub support_dir: &'static str,
    /// The subfolder of it.
    pub into: &'static str,
}

/// Something to play, or something to work in.
#[derive(Clone, Copy, Debug, PartialEq, Eq, Structural)]
pub enum Kind {
    Game,
    Tool,
}

/// One row of the catalog.
pub struct Game {
    /// The stable id: the folder's name and the key of the card.
    pub slug: &'static str,
    pub name: &'static str,
    pub tagline: &'static str,
    /// `owner/name` on GitHub.
    pub repo: &'static str,
    /// The brand colour, in hexadecimal.
    pub accent: &'static str,
    pub delivery: Delivery,
    pub kind: Kind,
    pub payload: Option<Payload>,
}

/// What the card of a game is drawn from.
pub struct GameInfo {
    pub slug: String,
    pub name: String,
    pub tagline: String,
    pub repo: String,
    pub accent: String,
    /// "game" or "tool".
    pub kind: String,
}

// ---- The rows as facts -----------------------------------------------------------

#[verifier::ext_equal]
pub enum DeliveryFacts {
    Web { asset: Seq<char>, port: u16 },
    Native { mac: Seq<char>, windows: Seq<char> },
}

#[verifier::ext_equal]
pub struct PayloadFacts {
    pub tag: Seq<char>,
    pub assets: Seq<Seq<char>>,
    pub support_dir: Seq<char>,
    pub into: Seq<char>,
}

#[verifier::ext_equal]
pub struct GameFacts {
    pub slug: Seq<char>,
    pub name: Seq<char>,
    pub tagline: Seq<char>,
    pub repo: Seq<char>,
    pub accent: Seq<char>,
    pub delivery: DeliveryFacts,
    pub kind: Kind,
    pub payload: Option<PayloadFacts>,
}

#[verifier::ext_equal]
pub struct CardFacts {
    pub slug: Seq<char>,
    pub name: Seq<char>,
    pub tagline: Seq<char>,
    pub repo: Seq<char>,
    pub accent: Seq<char>,
    pub kind: Seq<char>,
}

impl View for Delivery {
    type V = DeliveryFacts;

    open spec fn view(&self) -> DeliveryFacts {
        match *self {
            Delivery::Web { asset, port } => DeliveryFacts::Web { asset: asset@, port },
            Delivery::Native { mac, windows } => DeliveryFacts::Native {
                mac: mac@,
                windows: windows@,
            },
        }
    }
}

/// What a list of string slices holds.
pub open spec fn slices(list: Seq<&'static str>) -> Seq<Seq<char>> {
    list.map_values(|s: &'static str| s@)
}

impl View for Payload {
    type V = PayloadFacts;

    open spec fn view(&self) -> PayloadFacts {
        PayloadFacts {
            tag: self.tag@,
            assets: slices(self.assets@),
            support_dir: self.support_dir@,
            into: self.into@,
        }
    }
}

impl View for Game {
    type V = GameFacts;

    open spec fn view(&self) -> GameFacts {
        GameFacts {
            slug: self.slug@,
            name: self.name@,
            tagline: self.tagline@,
            repo: self.repo@,
            accent: self.accent@,
            delivery: self.delivery@,
            kind: self.kind,
            payload: match self.payload {
                Some(p) => Some(p@),
                None => None,
            },
        }
    }
}

impl View for GameInfo {
    type V = CardFacts;

    open spec fn view(&self) -> CardFacts {
        CardFacts {
            slug: self.slug@,
            name: self.name@,
            tagline: self.tagline@,
            repo: self.repo@,
            accent: self.accent@,
            kind: self.kind@,
        }
    }
}

/// What a list of rows says.
pub open spec fn rows(games: Seq<Game>) -> Seq<GameFacts> {
    games.map_values(|g: Game| g@)
}

/// The studio's convention for the assets of a native build.
pub open spec fn native_assets() -> DeliveryFacts {
    DeliveryFacts::Native { mac: "-macos-aarch64.app.tar.gz"@, windows: "-windows-x86_64.zip"@ }
}

/// The catalog.
pub open spec fn catalog_rows() -> Seq<GameFacts> {
    seq![
        GameFacts {
            slug: "wriftheart"@,
            name: "WriftHeart"@,
            tagline: "An 8-bit action-RPG of a shattered world. Gather the ten shards; mend the Wriftheart."@,
            repo: "Baz-Studios-LLC/wriftheart"@,
            accent: "#b06cff"@,
            delivery: native_assets(),
            kind: Kind::Game,
            payload: None,
        },
        GameFacts {
            slug: "wingman"@,
            name: "Wingman"@,
            tagline: "A twin-stick shooter where you fly two ships at once."@,
            repo: "Baz-Studios-LLC/Wingman"@,
            accent: "#3a86ff"@,
            delivery: DeliveryFacts::Web { asset: "wingman-game.zip"@, port: 47824 },
            kind: Kind::Game,
            payload: None,
        },
        GameFacts {
            slug: "violet-edge"@,
            name: "VIOLET EDGE"@,
            tagline: "A neon-vector Asteroids love letter \u{2014} cut the field, hold the edge."@,
            repo: "Baz-Studios-LLC/Violet-Edge"@,
            accent: "#8a5cff"@,
            delivery: native_assets(),
            kind: Kind::Game,
            payload: None,
        },
        GameFacts {
            slug: "divus-factus"@,
            name: "Divus Factus"@,
            tagline: "A god game where the villagers' belief defines the god."@,
            repo: "Baz-Studios-LLC/egregore"@,
            accent: "#d4a24e"@,
            delivery: native_assets(),
            kind: Kind::Game,
            payload: Some(
                PayloadFacts {
                    tag: "models-1"@,
                    assets: seq![".gguf"@],
                    support_dir: "Divus Factus"@,
                    into: "models"@,
                },
            ),
        },
        GameFacts {
            slug: "crashout"@,
            name: "Crashout"@,
            tagline: "An isometric office-survival game \u{2014} hold it together before you crash out."@,
            repo: "Baz-Studios-LLC/Crashout"@,
            accent: "#ff5a34"@,
            delivery: DeliveryFacts::Web { asset: "crashout-game.zip"@, port: 47826 },
            kind: Kind::Game,
            payload: None,
        },
        GameFacts {
            slug: "please-dont-shake"@,
            name: "Please Don't Shake"@,
            tagline: "An ant farm that digs its own tunnels \u{2014} and one sign asking you not to shake it."@,
            repo: "Baz-Studios-LLC/please-dont-shake"@,
            accent: "#ca1e1b"@,
            delivery: native_assets(),
            kind: Kind::Game,
            payload: None,
        },
        GameFacts {
            slug: "fly-on-the-wall"@,
            name: "Fly on the Wall"@,
            tagline: "A housefly in a family home. You can't understand a word they say \u{2014} only watch."@,
            repo: "Baz-Studios-LLC/Fly-on-the-Wall"@,
            accent: "#4f9d8a"@,
            delivery: native_assets(),
            kind: Kind::Game,
            payload: None,
        },
        GameFacts {
            slug: "ranger"@,
            name: "Ranger"@,
            tagline: "Raise monsters on a ranch, cross a continent, earn your Ranger License."@,
            repo: "Baz-Studios-LLC/ranger-game"@,
            accent: "#5faa5c"@,
            delivery: native_assets(),
            kind: Kind::Game,
            payload: None,
        },
        GameFacts {
            slug: "opificium"@,
            name: "Opificium"@,
            tagline: "The maker's bench: draw a building by hand, pose a body, export both as files."@,
            repo: "Baz-Studios-LLC/Opificium"@,
            accent: "#b8863b"@,
            delivery: native_assets(),
            kind: Kind::Tool,
            payload: None,
        },
    ]
}

/// The row is under that slug.
pub open spec fn under(slug: Seq<char>) -> spec_fn(GameFacts) -> bool {
    |row: GameFacts| row.slug == slug
}

/// The first row of `games` under that slug.
pub open spec fn row_of(games: Seq<GameFacts>, slug: Seq<char>) -> Option<GameFacts> {
    first(games, under(slug))
}

/// The row of the catalog under that slug.
pub open spec fn catalog_row(slug: Seq<char>) -> Option<GameFacts> {
    row_of(catalog_rows(), slug)
}

/// The word on a card's button goes by this.
pub open spec fn kind_word(kind: Kind) -> Seq<char> {
    match kind {
        Kind::Game => "game"@,
        Kind::Tool => "tool"@,
    }
}

/// The card of a row.
pub open spec fn card(row: GameFacts) -> CardFacts {
    CardFacts {
        slug: row.slug,
        name: row.name,
        tagline: row.tagline,
        repo: row.repo,
        accent: row.accent,
        kind: kind_word(row.kind),
    }
}

/// The asset of a native build for a platform.
pub open spec fn picked(mac: Seq<char>, windows: Seq<char>, platform: Platform) -> Seq<char> {
    if platform == Platform::Windows {
        windows
    } else {
        mac
    }
}

impl DeliveryFacts {
    /// The ending of the name of the release asset to fetch on a platform.
    pub open spec fn suffix(self, platform: Platform) -> Seq<char> {
        match self {
            DeliveryFacts::Web { asset, .. } => asset,
            DeliveryFacts::Native { mac, windows } => picked(mac, windows, platform),
        }
    }
}

// ---- The catalog ---------------------------------------------------------------------

/// The native asset for a platform (that of a Mac on any but the two).
pub fn native_pick(mac: &'static str, windows: &'static str, platform: Platform) -> (asset:
    &'static str)
    ensures
        asset@ == picked(mac@, windows@, platform),
{
    match platform {
        Platform::Windows => windows,
        _ => mac,
    }
}

impl Delivery {
    /// The ending of the name of the release asset to fetch on a platform.
    pub fn asset(&self, platform: Platform) -> (asset: &'static str)
        ensures
            asset@ == self@.suffix(platform),
    {
        match self {
            Delivery::Web { asset, .. } => *asset,
            Delivery::Native { mac, windows } => native_pick(*mac, *windows, platform),
        }
    }
}

fn native_build() -> (delivery: Delivery)
    ensures
        delivery@ == native_assets(),
{
    Delivery::Native { mac: "-macos-aarch64.app.tar.gz", windows: "-windows-x86_64.zip" }
}

/// The games and tools, in the order of the shelf.
pub fn catalog() -> (games: Vec<Game>)
    ensures
        rows(games@) == catalog_rows(),
{
    let mut models: Vec<&'static str> = Vec::new();
    models.push(".gguf");
    let mut games: Vec<Game> = Vec::new();
    games.push(
        Game {
            slug: "wriftheart",
            name: "WriftHeart",
            tagline: "An 8-bit action-RPG of a shattered world. Gather the ten shards; mend the Wriftheart.",
            repo: "Baz-Studios-LLC/wriftheart",
            accent: "#b06cff",
            delivery: native_build(),
            kind: Kind::Game,
            payload: None,
        },
    );
    games.push(
        Game {
            slug: "wingman",
            name: "Wingman",
            tagline: "A twin-stick shooter where you fly two ships at once.",
            repo: "Baz-Studios-LLC/Wingman",
            accent: "#3a86ff",
            delivery: Delivery::Web { asset: "wingman-game.zip", port: 47824 },
            kind: Kind::Game,
            payload: None,
        },
    );
    games.push(
        Game {
            slug: "violet-edge",
            name: "VIOLET EDGE",
            tagline: "A neon-vector Asteroids love letter \u{2014} cut the field, hold the edge.",
            repo: "Baz-Studios-LLC/Violet-Edge",
            accent: "#8a5cff",
            delivery: native_build(),
            kind: Kind::Game,
            payload: None,
        },
    );
    games.push(
        Game {
            slug: "divus-factus",
            name: "Divus Factus",
            tagline: "A god game where the villagers' belief defines the god.",
            repo: "Baz-Studios-LLC/egregore",
            accent: "#d4a24e",
            delivery: native_build(),
            kind: Kind::Game,
            payload: Some(
                Payload {
                    tag: "models-1",
                    assets: models,
                    support_dir: "Divus Factus",
                    into: "models",
                },
            ),
        },
    );
    games.push(
        Game {
            slug: "crashout",
            name: "Crashout",
            tagline: "An isometric office-survival game \u{2014} hold it together before you crash out.",
            repo: "Baz-Studios-LLC/Crashout",
            accent: "#ff5a34",
            delivery: Delivery::Web { asset: "crashout-game.zip", port: 47826 },
            kind: Kind::Game,
            payload: None,
        },
    );
    games.push(
        Game {
            slug: "please-dont-shake",
            name: "Please Don't Shake",
            tagline: "An ant farm that digs its own tunnels \u{2014} and one sign asking you not to shake it.",
            repo: "Baz-Studios-LLC/please-dont-shake",
            accent: "#ca1e1b",
            delivery: native_build(),
            kind: Kind::Game,
            payload: None,
        },
    );
    games.push(
        Game {
            slug: "fly-on-the-wall",
            name: "Fly on the Wall",
            tagline: "A housefly in a family home. You can't understand a word they say \u{2014} only watch.",
            repo: "Baz-Studios-LLC/Fly-on-the-Wall",
            accent: "#4f9d8a",
            delivery: native_build(),
            kind: Kind::Game,
            payload: None,
        },
    );
    games.push(
        Game {
            slug: "ranger",
            name: "Ranger",
            tagline: "Raise monsters on a ranch, cross a continent, earn your Ranger License.",
            repo: "Baz-Studios-LLC/ranger-game",
            accent: "#5faa5c",
            delivery: native_build(),
            kind: Kind::Game,
            payload: None,
        },
    );
    games.push(
        Game {
            slug: "opificium",
            name: "Opificium",
            tagline: "The maker's bench: draw a building by hand, pose a body, export both as files.",
            repo: "Baz-Studios-LLC/Opificium",
            accent: "#b8863b",
            delivery: native_build(),
            kind: Kind::Tool,
            payload: None,
        },
    );
    proof {
        assert(slices(models@) =~= seq![".gguf"@]);
        assert(rows(games@) =~= catalog_rows());
    }
    games
}

/// The game of the catalog under that slug.
pub fn game_by_slug(slug: &str) -> (game: Option<Game>)
    ensures
        game is Some <==> catalog_row(slug@) is Some,
        game matches Some(g) ==> catalog_row(slug@) == Some(g@),
{
    let mut games = catalog();
    let ghost all = catalog_rows();
    let mut i: usize = 0;
    while i < games.len()
        invariant
            i <= games.len(),
            all == catalog_rows(),
            rows(games@) == all,
            forall|k: int| 0 <= k < i ==> (#[trigger] all[k]).slug != slug@,
        decreases games.len() - i,
    {
        proof {
            assert(rows(games@)[i as int] == games@[i as int]@);
        }
        if same_text(games[i].slug, slug) {
            proof {
                lemma_first(all, under(slug@), i as int);
            }
            return Some(games.swap_remove(i));
        }
        i += 1;
    }
    proof {
        assert(rows(games@).len() == games@.len());
        lemma_first(all, under(slug@), i as int);
    }
    None
}

/// The cards, one per game, from the one catalog.
pub fn games() -> (cards: Vec<GameInfo>)
    ensures
        cards@.map_values(|c: GameInfo| c@) == catalog_rows().map_values(
            |row: GameFacts| card(row),
        ),
{
    let games = catalog();
    let mut cards: Vec<GameInfo> = Vec::new();
    let mut i: usize = 0;
    while i < games.len()
        invariant
            i <= games.len(),
            rows(games@) == catalog_rows(),
            cards@.len() == i,
            forall|k: int| 0 <= k < i ==> (#[trigger] cards@[k])@ == card(catalog_rows()[k]),
        decreases games.len() - i,
    {
        proof {
            assert(rows(games@)[i as int] == games@[i as int]@);
        }
        let g = &games[i];
        let kind = match g.kind {
            Kind::Game => "game".to_owned(),
            Kind::Tool => "tool".to_owned(),
        };
        cards.push(
            GameInfo {
                slug: g.slug.to_owned(),
                name: g.name.to_owned(),
                tagline: g.tagline.to_owned(),
                repo: g.repo.to_owned(),
                accent: g.accent.to_owned(),
                kind,
            },
        );
        i += 1;
    }
    proof {
        assert(rows(games@).len() == games@.len());
        assert(cards@.map_values(|c: GameInfo| c@) =~= catalog_rows().map_values(
            |row: GameFacts| card(row),
        ));
    }
    cards
}

// ---- Laws ----------------------------------------------------------------------------------

proof fn lemma_slugs()
    ensures
        forall|i: int, j: int|
            0 <= i < j < catalog_rows().len() ==> (#[trigger] catalog_rows()[i]).slug != (
            #[trigger] catalog_rows()[j]).slug,
{
    reveal_strlit("wriftheart");
    reveal_strlit("wingman");
    reveal_strlit("violet-edge");
    reveal_strlit("divus-factus");
    reveal_strlit("crashout");
    reveal_strlit("please-dont-shake");
    reveal_strlit("fly-on-the-wall");
    reveal_strlit("ranger");
    reveal_strlit("opificium");
    assert forall|i: int, j: int| 0 <= i < j < catalog_rows().len() implies (
    #[trigger] catalog_rows()[i]).slug != (#[trigger] catalog_rows()[j]).slug by {
        assert(catalog_rows()[i].slug.len() != catalog_rows()[j].slug.len());
    }
}

/// No two games share a slug, so none is installed over another.
pub proof fn law_slugs_distinct(i: int, j: int)
    requires
        0 <= i < catalog_rows().len(),
        0 <= j < catalog_rows().len(),
        catalog_rows()[i].slug == catalog_rows()[j].slug,
    ensures
        i == j,
{
    lemma_slugs();
}

/// Every game of the catalog is found under its slug, and nothing else is.
pub proof fn law_every_game_found(slug: Seq<char>)
    ensures
        forall|i: int|
            0 <= i < catalog_rows().len() ==> catalog_row((#[trigger] catalog_rows()[i]).slug)
                == Some(catalog_rows()[i]),
        catalog_row(slug) matches Some(row) ==> row.slug == slug && catalog_rows().contains(row),
{
    lemma_slugs();
    let all = catalog_rows();
    assert forall|i: int| 0 <= i < all.len() implies catalog_row((#[trigger] all[i]).slug) == Some(
        all[i],
    ) by {
        lemma_first(all, under(all[i].slug), i);
    }
    lemma_first_found(all, under(slug));
}

/// No two web games share a port, so each has a save origin of its own.
pub proof fn law_ports_distinct(i: int, j: int)
    requires
        0 <= i < catalog_rows().len(),
        0 <= j < catalog_rows().len(),
        catalog_rows()[i].delivery is Web,
        catalog_rows()[j].delivery is Web,
        catalog_rows()[i].delivery->port == catalog_rows()[j].delivery->port,
    ensures
        i == j,
{
}

/// The bundle of a web game is called `<slug>-game.zip`.
pub proof fn law_web_bundles_by_slug(i: int)
    requires
        0 <= i < catalog_rows().len(),
        catalog_rows()[i].delivery is Web,
    ensures
        catalog_rows()[i].delivery->asset == catalog_rows()[i].slug + "-game.zip"@,
{
    reveal_strlit("wingman");
    reveal_strlit("crashout");
    reveal_strlit("-game.zip");
    reveal_strlit("wingman-game.zip");
    reveal_strlit("crashout-game.zip");
    assert(catalog_rows()[i].delivery->asset =~= catalog_rows()[i].slug + "-game.zip"@);
}

/// No two games share a repository, so that what is answered about one
/// repository is about one game.
pub proof fn law_repos_distinct(i: int, j: int)
    requires
        0 <= i < catalog_rows().len(),
        0 <= j < catalog_rows().len(),
        catalog_rows()[i].repo == catalog_rows()[j].repo,
    ensures
        i == j,
{
    reveal_strlit("Baz-Studios-LLC/wriftheart");
    reveal_strlit("Baz-Studios-LLC/Wingman");
    reveal_strlit("Baz-Studios-LLC/Violet-Edge");
    reveal_strlit("Baz-Studios-LLC/egregore");
    reveal_strlit("Baz-Studios-LLC/Crashout");
    reveal_strlit("Baz-Studios-LLC/please-dont-shake");
    reveal_strlit("Baz-Studios-LLC/Fly-on-the-Wall");
    reveal_strlit("Baz-Studios-LLC/ranger-game");
    reveal_strlit("Baz-Studios-LLC/Opificium");
    if i != j {
        let a = catalog_rows()[i].repo;
        let b = catalog_rows()[j].repo;
        assert(a.len() != b.len() || a[16] != b[16]);
    }
}

/// A web game's asset is its bundle on every platform; a native game's is that for
/// Windows there, and that for a Mac everywhere else.
pub proof fn law_asset_by_platform(
    asset: Seq<char>,
    port: u16,
    mac: Seq<char>,
    windows: Seq<char>,
    platform: Platform,
)
    ensures
        (DeliveryFacts::Web { asset, port }).suffix(platform) == asset,
        (DeliveryFacts::Native { mac, windows }).suffix(Platform::Windows) == windows,
        (DeliveryFacts::Native { mac, windows }).suffix(Platform::Mac) == mac,
        (DeliveryFacts::Native { mac, windows }).suffix(Platform::Other) == mac,
{
}

/// A card says of a game what its row says, and names its kind.
pub proof fn law_card(row: GameFacts)
    ensures
        card(row).slug == row.slug,
        card(row).name == row.name,
        card(row).tagline == row.tagline,
        card(row).repo == row.repo,
        card(row).accent == row.accent,
        row.kind == Kind::Game ==> card(row).kind == "game"@,
        row.kind == Kind::Tool ==> card(row).kind == "tool"@,
{
}

/// The row of the catalog at a place is that of the game with this slug and name,
/// of this repository and colour.
pub open spec fn row_is(
    i: int,
    slug: Seq<char>,
    name: Seq<char>,
    repo: Seq<char>,
    accent: Seq<char>,
) -> bool {
    let row = catalog_rows()[i];
    row.slug == slug && row.name == name && row.repo == repo && row.accent == accent
}

/// The shelf, game by game: what each is called, where it is found, how it is
/// delivered, and which one is a tool or has a payload.
pub proof fn law_shelf(i: int)
    requires
        0 <= i < catalog_rows().len(),
    ensures
        catalog_rows().len() == 9,
        row_is(0, "wriftheart"@, "WriftHeart"@, "Baz-Studios-LLC/wriftheart"@, "#b06cff"@),
        row_is(1, "wingman"@, "Wingman"@, "Baz-Studios-LLC/Wingman"@, "#3a86ff"@),
        row_is(2, "violet-edge"@, "VIOLET EDGE"@, "Baz-Studios-LLC/Violet-Edge"@, "#8a5cff"@),
        row_is(3, "divus-factus"@, "Divus Factus"@, "Baz-Studios-LLC/egregore"@, "#d4a24e"@),
        row_is(4, "crashout"@, "Crashout"@, "Baz-Studios-LLC/Crashout"@, "#ff5a34"@),
        row_is(
            5,
            "please-dont-shake"@,
            "Please Don't Shake"@,
            "Baz-Studios-LLC/please-dont-shake"@,
            "#ca1e1b"@,
        ),
        row_is(
            6,
            "fly-on-the-wall"@,
            "Fly on the Wall"@,
            "Baz-Studios-LLC/Fly-on-the-Wall"@,
            "#4f9d8a"@,
        ),
        row_is(7, "ranger"@, "Ranger"@, "Baz-Studios-LLC/ranger-game"@, "#5faa5c"@),
        row_is(8, "opificium"@, "Opificium"@, "Baz-Studios-LLC/Opificium"@, "#b8863b"@),
        catalog_rows()[i].delivery == (if i == 1 {
            DeliveryFacts::Web { asset: "wingman-game.zip"@, port: 47824 }
        } else if i == 4 {
            DeliveryFacts::Web { asset: "crashout-game.zip"@, port: 47826 }
        } else {
            DeliveryFacts::Native {
                mac: "-macos-aarch64.app.tar.gz"@,
                windows: "-windows-x86_64.zip"@,
            }
        }),
        catalog_rows()[i].kind == (if i == 8 {
            Kind::Tool
        } else {
            Kind::Game
        }),
        i != 3 ==> catalog_rows()[i].payload is None,
        catalog_rows()[3].payload matches Some(payload) && payload.tag == "models-1"@
            && payload.assets == seq![".gguf"@] && payload.support_dir == "Divus Factus"@
            && payload.into == "models"@,
{
}

/// The blurbs of the shelf, game by game.
pub proof fn law_taglines()
    ensures
        catalog_rows()[0].tagline
            == "An 8-bit action-RPG of a shattered world. Gather the ten shards; mend the Wriftheart."@,
        catalog_rows()[1].tagline == "A twin-stick shooter where you fly two ships at once."@,
        catalog_rows()[2].tagline
            == "A neon-vector Asteroids love letter \u{2014} cut the field, hold the edge."@,
        catalog_rows()[3].tagline == "A god game where the villagers' belief defines the god."@,
        catalog_rows()[4].tagline
            == "An isometric office-survival game \u{2014} hold it together before you crash out."@,
        catalog_rows()[5].tagline
            == "An ant farm that digs its own tunnels \u{2014} and one sign asking you not to shake it."@,
        catalog_rows()[6].tagline
            == "A housefly in a family home. You can't understand a word they say \u{2014} only watch."@,
        catalog_rows()[7].tagline
            == "Raise monsters on a ranch, cross a continent, earn your Ranger License."@,
        catalog_rows()[8].tagline
            == "The maker's bench: draw a building by hand, pose a body, export both as files."@,
{
}

/// The asset of a native build is that for Windows there, and that for a Mac
/// everywhere else.
pub proof fn law_picked(mac: Seq<char>, windows: Seq<char>)
    ensures
        picked(mac, windows, Platform::Mac) == mac,
        picked(mac, windows, Platform::Windows) == windows,
        picked(mac, windows, Platform::Other) == mac,
{
}

/// A row says what it holds, and a list of rows what its rows say, one by one.
pub proof fn law_rows(game: Game, payload: Payload, info: GameInfo, games: Seq<Game>)
    ensures
        game@.slug == game.slug@,
        game@.name == game.name@,
        game@.tagline == game.tagline@,
        game@.repo == game.repo@,
        game@.accent == game.accent@,
        game@.kind == game.kind,
        match game.delivery {
            Delivery::Web { asset, port } => game@.delivery == (DeliveryFacts::Web {
                asset: asset@,
                port,
            }),
            Delivery::Native { mac, windows } => game@.delivery == (DeliveryFacts::Native {
                mac: mac@,
                windows: windows@,
            }),
        },
        match game.payload {
            Some(p) => game@.payload == Some(p@),
            None => game@.payload is None,
        },
        payload@.tag == payload.tag@,
        payload@.support_dir == payload.support_dir@,
        payload@.into == payload.into@,
        payload@.assets.len() == payload.assets@.len(),
        forall|k: int|
            0 <= k < payload.assets@.len() ==> #[trigger] payload@.assets[k] == payload.assets@[k]@,
        info@.slug == info.slug@,
        info@.name == info.name@,
        info@.tagline == info.tagline@,
        info@.repo == info.repo@,
        info@.accent == info.accent@,
        info@.kind == info.kind@,
        rows(games).len() == games.len(),
        forall|k: int| 0 <= k < games.len() ==> #[trigger] rows(games)[k] == games[k]@,
{
}

} // verus!
