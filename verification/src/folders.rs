//! Where things lie on disk, and what is read out of what lies there. A place
//! is a list of parts, each joined to the one before it.

use crate::catalog::{
    catalog_row, catalog_rows, game_by_slug, law_every_game_found, row_of, slices, Delivery,
    DeliveryFacts, GameFacts,
};
use crate::platform::Platform;
use crate::text::{
    ends_with, has_suffix, law_suffix, law_trimmed, law_trimmed_middle, replace_char, same_text,
    texts, trim, trimmed, trimmed_end, trimmed_start, white_space, with_replaced,
};
use vstd::prelude::*;

verus! {

// ---- The folder of a game ----------------------------------------------------------

/// The place of a game below the launcher's own data: `games/<slug>`.
pub fn game_dir(slug: &str) -> (parts: Vec<String>)
    ensures
        texts(parts@) == seq!["games"@, slug@],
{
    let mut parts: Vec<String> = Vec::new();
    parts.push("games".to_owned());
    parts.push(slug.to_owned());
    assert(texts(parts@) =~= seq!["games"@, slug@]);
    parts
}

/// The slugs that games had before they were renamed. They are listed by hand:
/// a folder that is merely not recognised is not the launcher's to delete.
pub open spec fn retired() -> Seq<Seq<char>> {
    seq!["egregore"@]
}

/// The retired slugs that no game of the catalog answers to.
pub open spec fn orphaned(gone: Seq<Seq<char>>, games: Seq<GameFacts>) -> Seq<Seq<char>> {
    gone.filter(|slug: Seq<char>| row_of(games, slug) is None)
}

/// The slugs that games had before they were renamed.
pub fn retired_slugs() -> (slugs: Vec<&'static str>)
    ensures
        slices(slugs@) == retired(),
{
    let mut slugs: Vec<&'static str> = Vec::new();
    slugs.push("egregore");
    assert(slices(slugs@) =~= retired());
    slugs
}

/// The slugs whose install folders are to be deleted where they exist.
pub fn sweep_retired() -> (slugs: Vec<String>)
    ensures
        texts(slugs@) == orphaned(retired(), catalog_rows()),
{
    let gone = retired_slugs();
    let ghost pred = |slug: Seq<char>| row_of(catalog_rows(), slug) is None;
    let mut slugs: Vec<String> = Vec::new();
    let mut i: usize = 0;
    proof {
        reveal_with_fuel(Seq::filter, 1);
        assert(texts(slugs@) =~= retired().take(0).filter(pred));
    }
    while i < gone.len()
        invariant
            i <= gone.len(),
            slices(gone@) == retired(),
            pred == (|slug: Seq<char>| row_of(catalog_rows(), slug) is None),
            texts(slugs@) == retired().take(i as int).filter(pred),
        decreases gone.len() - i,
    {
        proof {
            reveal_with_fuel(Seq::filter, 1);
            assert(slices(gone@)[i as int] == gone@[i as int]@);
            assert(retired().take(i + 1).drop_last() =~= retired().take(i as int));
            assert(retired().take(i + 1).last() == gone@[i as int]@);
        }
        let live = game_by_slug(gone[i]);
        if live.is_none() {
            let ghost before = slugs@;
            slugs.push(gone[i].to_owned());
            proof {
                assert(texts(slugs@) =~= texts(before).push(gone@[i as int]@));
            }
        }
        i += 1;
    }
    proof {
        assert(slices(gone@).len() == gone@.len());
        assert(retired().take(i as int) =~= retired());
    }
    slugs
}

// ---- The fullscreen preference -----------------------------------------------------

/// What the preference says.
pub open spec fn preference(contents: Option<Seq<char>>) -> bool {
    contents matches Some(text) && trimmed(text) == "1"@
}

/// What is written down of the preference.
pub open spec fn preference_text(on: bool) -> Seq<char> {
    if on {
        "1"@
    } else {
        "0"@
    }
}

/// The file of the preference, in the launcher's own data.
pub fn fs_pref_path() -> (name: &'static str)
    ensures
        name@ == "fullscreen.pref"@,
{
    "fullscreen.pref"
}

/// Whether games open fullscreen, from what the preference's file holds.
pub fn read_fs_pref(contents: Option<&str>) -> (on: bool)
    ensures
        on == preference(
            match contents {
                Some(text) => Some(text@),
                None => None,
            },
        ),
{
    match contents {
        Some(text) => {
            let kept = trim(text);
            same_text(kept.as_str(), "1")
        },
        None => false,
    }
}

/// What to write into the preference's file.
pub fn write_fs_pref(on: bool) -> (contents: &'static str)
    ensures
        contents@ == preference_text(on),
{
    if on {
        "1"
    } else {
        "0"
    }
}

/// The fullscreen state after the shortcut, from the state before it; a window
/// that cannot tell counts as not fullscreen.
pub open spec fn turned(before: Option<bool>) -> bool {
    before != Some(true)
}

/// The fullscreen state after the shortcut.
pub fn toggled_fullscreen(before: Option<bool>) -> (after: bool)
    ensures
        after == turned(before),
{
    match before {
        Some(on) => !on,
        None => true,
    }
}

// ---- Where a game keeps its own files ----------------------------------------------

/// The lower-case form of a text, by Unicode's rules.
pub uninterp spec fn lower_case(s: Seq<char>) -> Seq<char>;

/// `str::to_lowercase`: the result depends on the text alone.
#[verifier::external_body]
fn to_lowercase(s: &str) -> (lower: String)
    ensures
        lower@ == lower_case(s@),
{
    s.to_lowercase()
}

/// A lower-case name with its spaces as hyphens.
pub fn hyphenated(lower: &str) -> (name: String)
    ensures
        name@ == with_replaced(lower@, ' ', '-'),
{
    replace_char(lower, ' ', '-')
}

/// The environment variable that holds the folder all support directories are below.
pub open spec fn support_variable(platform: Platform) -> Seq<char> {
    if platform == Platform::Windows {
        "APPDATA"@
    } else {
        "HOME"@
    }
}

/// Where a game keeps its files, below `home`.
pub open spec fn support_parts(
    platform: Platform,
    support_dir: Seq<char>,
    into: Seq<char>,
    home: Seq<char>,
) -> Seq<Seq<char>> {
    match platform {
        Platform::Mac => seq![home, "Library/Application Support"@, support_dir, into],
        Platform::Windows => seq![home, support_dir, into],
        Platform::Other => seq![
            home,
            ".local/share"@,
            with_replaced(lower_case(support_dir), ' ', '-'),
            into,
        ],
    }
}

/// The environment variable that `support_path` needs.
pub fn support_env(platform: Platform) -> (name: &'static str)
    ensures
        name@ == support_variable(platform),
{
    match platform {
        Platform::Windows => "APPDATA",
        _ => "HOME",
    }
}

/// Where a game keeps its own files: its saves, and what is fetched for it.
/// This mirrors what the game works out for itself. `home` is the value of the
/// variable that `support_env` names, where it is set.
pub fn support_path(platform: Platform, support_dir: &str, into: &str, home: Option<&str>) -> (parts:
    Option<Vec<String>>)
    ensures
        parts is Some <==> home is Some,
        parts matches Some(p) ==> texts(p@) == support_parts(
            platform,
            support_dir@,
            into@,
            home->0@,
        ),
{
    match home {
        None => None,
        Some(base) => {
            let mut parts: Vec<String> = Vec::new();
            parts.push(base.to_owned());
            match platform {
                Platform::Mac => {
                    parts.push("Library/Application Support".to_owned());
                    parts.push(support_dir.to_owned());
                },
                Platform::Windows => {
                    parts.push(support_dir.to_owned());
                },
                Platform::Other => {
                    let lower = to_lowercase(support_dir);
                    parts.push(".local/share".to_owned());
                    parts.push(hyphenated(lower.as_str()));
                },
            }
            parts.push(into.to_owned());
            proof {
                assert(texts(parts@) =~= support_parts(platform, support_dir@, into@, base@));
            }
            Some(parts)
        },
    }
}

// ---- What is installed ---------------------------------------------------------------

/// The names of a folder's entries; nothing for a name that is no text.
pub open spec fn names(entries: Seq<Option<String>>) -> Seq<Option<Seq<char>>> {
    entries.map_values(
        |e: Option<String>|
            match e {
                Some(s) => Some(s@),
                None => None,
            },
    )
}

/// The name ends in a dot and `ext`.
pub open spec fn has_extension(name: Option<Seq<char>>, ext: Seq<char>) -> bool {
    name matches Some(n) && has_suffix(n, "."@ + ext)
}

/// The index of the first entry whose name ends in a dot and `ext`.
pub open spec fn entry_with(names: Seq<Option<Seq<char>>>, ext: Seq<char>) -> Option<nat>
    decreases names.len(),
{
    if names.len() == 0 {
        None
    } else {
        match entry_with(names.drop_last(), ext) {
            Some(i) => Some(i),
            None => if has_extension(names.last(), ext) {
                Some((names.len() - 1) as nat)
            } else {
                None
            },
        }
    }
}

/// The extension of what a native game is launched from.
pub open spec fn launchable(platform: Platform) -> Option<Seq<char>> {
    match platform {
        Platform::Mac => Some("app"@),
        Platform::Windows => Some("exe"@),
        Platform::Other => None,
    }
}

/// A native game can be launched from a folder with these entries.
pub open spec fn native_present(platform: Platform, names: Seq<Option<Seq<char>>>) -> bool {
    launchable(platform) matches Some(ext) && entry_with(names, ext) is Some
}

/// The artifact of the delivery is there.
pub open spec fn artifact_present(
    delivery: DeliveryFacts,
    platform: Platform,
    has_index: bool,
    names: Seq<Option<Seq<char>>>,
) -> bool {
    match delivery {
        DeliveryFacts::Web { .. } => has_index,
        DeliveryFacts::Native { .. } => native_present(platform, names),
    }
}

/// The version that a stamp names; nothing for an empty one.
pub open spec fn stamped(stamp: Option<Seq<char>>) -> Option<Seq<char>> {
    match stamp {
        Some(text) => if trimmed(text).len() > 0 {
            Some(trimmed(text))
        } else {
            None
        },
        None => None,
    }
}

/// The version of the installed copy of a game.
pub open spec fn version_installed(
    game: Option<GameFacts>,
    platform: Platform,
    has_index: bool,
    names: Seq<Option<Seq<char>>>,
    stamp: Option<Seq<char>>,
) -> Option<Seq<char>> {
    match game {
        Some(g) => if artifact_present(g.delivery, platform, has_index, names) {
            stamped(stamp)
        } else {
            None
        },
        None => None,
    }
}

/// The first entry whose name ends in a dot and `ext`: the installed `.app`
/// bundle, or the game's `.exe`.
pub fn find_entry(entries: &Vec<Option<String>>, ext: &str) -> (found: Option<usize>)
    ensures
        found is Some <==> entry_with(names(entries@), ext@) is Some,
        found matches Some(i) ==> entry_with(names(entries@), ext@) == Some(i as nat),
{
    let mut want = ".".to_owned();
    want.append(ext);
    let mut i: usize = 0;
    while i < entries.len()
        invariant
            i <= entries.len(),
            want@ == "."@ + ext@,
            entry_with(names(entries@).take(i as int), ext@) is None,
        decreases entries.len() - i,
    {
        let ghost all = names(entries@);
        proof {
            assert(all.take(i + 1).drop_last() =~= all.take(i as int));
            assert(all.take(i + 1).last() == all[i as int]);
        }
        match &entries[i] {
            Some(name) => {
                if ends_with(name.as_str(), want.as_str()) {
                    proof {
                        lemma_entry_prefix(all, ext@, i + 1);
                    }
                    return Some(i);
                }
            },
            None => {},
        }
        i += 1;
    }
    proof {
        assert(names(entries@).take(i as int) =~= names(entries@));
    }
    None
}

proof fn lemma_entry_prefix(all: Seq<Option<Seq<char>>>, ext: Seq<char>, n: int)
    requires
        0 <= n <= all.len(),
        entry_with(all.take(n), ext) is Some,
    ensures
        entry_with(all, ext) == entry_with(all.take(n), ext),
    decreases all.len() - n,
{
    if n < all.len() {
        assert(all.take(n + 1).drop_last() =~= all.take(n));
        lemma_entry_prefix(all, ext, n + 1);
    } else {
        assert(all.take(n) =~= all);
    }
}

/// Whether a native game can be launched from a folder with these entries.
pub fn native_artifact(platform: Platform, entries: &Vec<Option<String>>) -> (present: bool)
    ensures
        present == native_present(platform, names(entries@)),
{
    match platform {
        Platform::Mac => find_entry(entries, "app").is_some(),
        Platform::Windows => find_entry(entries, "exe").is_some(),
        Platform::Other => false,
    }
}

/// The version of the installed copy of a game; nothing where it is not
/// installed. A stamp alone is not an install: the artifact that the game's
/// delivery launches must be there too. `has_index` says whether the folder
/// has an `index.html`, `stamp` is what its `version.txt` holds.
pub fn installed_version(
    slug: &str,
    platform: Platform,
    has_index: bool,
    entries: &Vec<Option<String>>,
    stamp: Option<&str>,
) -> (version: Option<String>)
    ensures
        (match version {
            Some(v) => Some(v@),
            None => None,
        }) == version_installed(
            catalog_row(slug@),
            platform,
            has_index,
            names(entries@),
            match stamp {
                Some(text) => Some(text@),
                None => None,
            },
        ),
{
    let game = match game_by_slug(slug) {
        Some(g) => g,
        None => {
            return None;
        },
    };
    let present = match &game.delivery {
        Delivery::Web { .. } => has_index,
        Delivery::Native { .. } => native_artifact(platform, entries),
    };
    if !present {
        return None;
    }
    match stamp {
        Some(text) => {
            let version = trim(text);
            if version.as_str().is_empty() {
                None
            } else {
                Some(version)
            }
        },
        None => None,
    }
}

// ---- Laws ------------------------------------------------------------------------------------

/// Only a folder that is listed by hand is ever deleted, and never one that a
/// live game answers to; and every listed folder without a game is.
pub proof fn law_sweep_spares_games(
    gone: Seq<Seq<char>>,
    games: Seq<GameFacts>,
    slug: Seq<char>,
)
    ensures
        orphaned(gone, games).contains(slug) <==> gone.contains(slug) && row_of(games, slug)
            is None,
{
    let pred = |s: Seq<char>| row_of(games, s) is None;
    lemma_filter_contains(gone, pred, slug);
}

proof fn lemma_filter_contains(list: Seq<Seq<char>>, pred: spec_fn(Seq<char>) -> bool, x: Seq<char>)
    ensures
        list.filter(pred).contains(x) <==> list.contains(x) && pred(x),
    decreases list.len(),
{
    reveal_with_fuel(Seq::filter, 1);
    if list.len() > 0 {
        let rest = list.drop_last();
        lemma_filter_contains(rest, pred, x);
        let kept = rest.filter(pred);
        if list.contains(x) {
            let k = choose|k: int| 0 <= k < list.len() && list[k] == x;
            if k < rest.len() {
                assert(rest[k] == x);
                assert(rest.contains(x));
                if pred(x) {
                    let m = choose|m: int| 0 <= m < kept.len() && kept[m] == x;
                    assert(list.filter(pred)[m] == x);
                }
            } else if pred(x) {
                assert(list.filter(pred)[kept.len() as int] == x);
            }
        }
        if list.filter(pred).contains(x) {
            let m = choose|m: int|
                0 <= m < list.filter(pred).len() && list.filter(pred)[m] == x;
            if m < kept.len() {
                assert(kept[m] == x);
                assert(kept.contains(x));
                let k = choose|k: int| 0 <= k < rest.len() && rest[k] == x;
                assert(list[k] == x);
            } else {
                assert(list[list.len() - 1] == x);
            }
        }
    }
}

/// A game opens the way it was left: what was written of the preference is read back.
pub proof fn law_preference_kept(on: bool)
    ensures
        preference(Some(preference_text(on))) == on,
{
    reveal_strlit("1");
    reveal_strlit("0");
    let text = preference_text(on);
    assert(text.len() == 1);
    assert(!white_space(text[0]));
    assert(trimmed_start(text) == text);
    assert(text.last() == text[0]);
    assert(trimmed_end(text) == text);
    if !on {
        assert("0"@[0] != "1"@[0]);
    }
}

/// A stamp alone is not an install: without the artifact of the game's delivery
/// no version is installed, whatever the stamp says. So what is left of a web
/// bundle does not pass for the native build that came after it.
pub proof fn law_stamp_alone_is_no_install(
    game: GameFacts,
    platform: Platform,
    has_index: bool,
    names: Seq<Option<Seq<char>>>,
    stamp: Option<Seq<char>>,
)
    ensures
        !artifact_present(game.delivery, platform, has_index, names) ==> version_installed(
            Some(game),
            platform,
            has_index,
            names,
            stamp,
        ) is None,
        game.delivery is Native && !native_present(platform, names) ==> version_installed(
            Some(game),
            platform,
            true,
            names,
            stamp,
        ) is None,
{
}

/// The version that was stamped, without the white space at its ends, is the
/// version that is installed, where the artifact is there; a stamp of nothing but
/// white space names none. A version without such white space is read back as it was.
pub proof fn law_stamp_read_back(
    game: GameFacts,
    platform: Platform,
    has_index: bool,
    names: Seq<Option<Seq<char>>>,
    version: Seq<char>,
)
    requires
        artifact_present(game.delivery, platform, has_index, names),
    ensures
        version_installed(Some(game), platform, has_index, names, Some(version)) == (if trimmed(
            version,
        ).len() > 0 {
            Some(trimmed(version))
        } else {
            None
        }),
        version.len() > 0 && !white_space(version[0]) && !white_space(version.last()) ==> trimmed(
            version,
        ) == version,
{
}

/// The first entry is found: its name ends as wanted and that of none before it
/// does; there is none exactly where no name ends so.
pub proof fn law_first_entry(names: Seq<Option<Seq<char>>>, ext: Seq<char>)
    ensures
        entry_with(names, ext) matches Some(i) ==> i < names.len() && has_extension(
            names[i as int],
            ext,
        ) && forall|k: int| 0 <= k < i ==> !has_extension(#[trigger] names[k], ext),
        entry_with(names, ext) is None ==> forall|k: int|
            0 <= k < names.len() ==> !has_extension(#[trigger] names[k], ext),
    decreases names.len(),
{
    if names.len() > 0 {
        let rest = names.drop_last();
        law_first_entry(rest, ext);
        match entry_with(rest, ext) {
            Some(i) => {
                assert(rest[i as int] == names[i as int]);
                assert forall|k: int| 0 <= k < i implies !has_extension(#[trigger] names[k], ext) by {
                    assert(rest[k] == names[k]);
                }
            },
            None => {
                assert forall|k: int| 0 <= k < names.len() - 1 implies !has_extension(
                    #[trigger] names[k],
                    ext,
                ) by {
                    assert(rest[k] == names[k]);
                }
            },
        }
    }
}

/// Off the two platforms that have a folder of their own for it, the directory
/// of a game's files has no space in its name.
pub proof fn law_support_dir_without_spaces(
    support_dir: Seq<char>,
    into: Seq<char>,
    home: Seq<char>,
)
    ensures
        !support_parts(Platform::Other, support_dir, into, home)[2].contains(' '),
{
}

/// The one folder that is swept is that of the slug that a renamed game had.
pub proof fn law_swept()
    ensures
        orphaned(retired(), catalog_rows()) == seq!["egregore"@],
{
    law_every_game_found("egregore"@);
    reveal_strlit("egregore");
    reveal_strlit("wriftheart");
    reveal_strlit("wingman");
    reveal_strlit("violet-edge");
    reveal_strlit("divus-factus");
    reveal_strlit("crashout");
    reveal_strlit("please-dont-shake");
    reveal_strlit("fly-on-the-wall");
    reveal_strlit("ranger");
    reveal_strlit("opificium");
    assert(catalog_row("egregore"@) is None) by {
        match catalog_row("egregore"@) {
            Some(row) => {
                let k = choose|k: int|
                    0 <= k < catalog_rows().len() && catalog_rows()[k] == row;
                let slug = catalog_rows()[k].slug;
                assert(slug.len() != "egregore"@.len() || slug[0] != "egregore"@[0]);
            },
            None => {},
        }
    }
    reveal_with_fuel(Seq::filter, 2);
    assert(retired().drop_last() =~= Seq::<Seq<char>>::empty());
    assert(orphaned(retired(), catalog_rows()) =~= seq!["egregore"@]);
}

/// The preference is on exactly where its file holds a one and otherwise nothing
/// but white space; without a file it is off.
pub proof fn law_preference(text: Seq<char>)
    ensures
        !preference(None),
        preference(Some(text)) <==> exists|i: int|
            0 <= i < text.len() && #[trigger] text[i] == '1' && forall|k: int|
                0 <= k < text.len() && k != i ==> white_space(#[trigger] text[k]),
        preference_text(true) == "1"@,
        preference_text(false) == "0"@,
{
    reveal_strlit("1");
    law_trimmed(text);
    let (a, b) = choose|a: int, b: int|
        0 <= a <= b <= text.len() && trimmed(text) == #[trigger] text.subrange(a, b) && (forall|
            k: int,
        |
            0 <= k < text.len() && !(a <= k < b) ==> white_space(#[trigger] text[k])) && (a < b
            ==> !white_space(text[a]) && !white_space(text[b - 1]));
    if preference(Some(text)) {
        assert(text.subrange(a, b).len() == "1"@.len());
        assert(text.subrange(a, b)[0] == '1');
        assert(text[a] == '1');
    }
    if exists|i: int|
        0 <= i < text.len() && #[trigger] text[i] == '1' && forall|k: int|
            0 <= k < text.len() && k != i ==> white_space(#[trigger] text[k]) {
        let i = choose|i: int|
            0 <= i < text.len() && #[trigger] text[i] == '1' && forall|k: int|
                0 <= k < text.len() && k != i ==> white_space(#[trigger] text[k]);
        let before = text.take(i);
        let after = text.skip(i + 1);
        assert forall|k: int| 0 <= k < before.len() implies white_space(#[trigger] before[k]) by {
            assert(white_space(text[k]));
        }
        assert forall|k: int| 0 <= k < after.len() implies white_space(#[trigger] after[k]) by {
            assert(white_space(text[i + 1 + k]));
        }
        law_trimmed_middle(before, seq!['1'], after);
        assert(before + seq!['1'] + after =~= text);
        assert(seq!['1'] =~= "1"@);
    }
}

/// The shortcut turns the window the other way, and twice turns it back.
pub proof fn law_shortcut_turns(on: bool)
    ensures
        turned(Some(on)) == !on,
        turned(Some(turned(Some(on)))) == on,
        turned(None),
{
}

/// Where a game keeps its files, platform by platform.
pub proof fn law_support_places(support_dir: Seq<char>, into: Seq<char>, home: Seq<char>)
    ensures
        support_variable(Platform::Mac) == "HOME"@,
        support_variable(Platform::Windows) == "APPDATA"@,
        support_variable(Platform::Other) == "HOME"@,
        support_parts(Platform::Mac, support_dir, into, home) == seq![
            home,
            "Library/Application Support"@,
            support_dir,
            into,
        ],
        support_parts(Platform::Windows, support_dir, into, home) == seq![home, support_dir, into],
        ({
            let parts = support_parts(Platform::Other, support_dir, into, home);
            let lower = lower_case(support_dir);
            &&& parts.len() == 4
            &&& parts[0] == home
            &&& parts[1] == ".local/share"@
            &&& parts[2].len() == lower.len()
            &&& forall|k: int|
                0 <= k < lower.len() ==> #[trigger] parts[2][k] == (if lower[k] == ' ' {
                    '-'
                } else {
                    lower[k]
                })
            &&& parts[3] == into
        }),
{
}

/// A name has an extension exactly where it is something, a dot and the extension.
pub proof fn law_extension(name: Seq<char>, ext: Seq<char>)
    ensures
        has_extension(Some(name), ext) <==> exists|front: Seq<char>|
            name == #[trigger] front.add("."@ + ext),
        !has_extension(None, ext),
{
    law_suffix(name, "."@ + ext);
}

/// The name ends as that of what a native game is launched from on the platform.
pub open spec fn ends_launchable(platform: Platform, name: Option<Seq<char>>) -> bool {
    match platform {
        Platform::Mac => name matches Some(n) && has_suffix(n, ".app"@),
        Platform::Windows => name matches Some(n) && has_suffix(n, ".exe"@),
        Platform::Other => false,
    }
}

/// The two ways to say that a native game can be launched from an entry agree.
pub proof fn lemma_launchable(platform: Platform, name: Option<Seq<char>>)
    ensures
        ends_launchable(platform, name) <==> (launchable(platform) matches Some(ext)
            && has_extension(name, ext)),
        launchable(platform) is Some <==> platform != Platform::Other,
{
    reveal_strlit(".");
    reveal_strlit("app");
    reveal_strlit("exe");
    reveal_strlit(".app");
    reveal_strlit(".exe");
    assert("."@ + "app"@ =~= ".app"@);
    assert("."@ + "exe"@ =~= ".exe"@);
}

/// A native game is installed exactly where some entry of its folder, at whatever
/// place in the listing, is an `.app` on a Mac or an `.exe` on Windows, and the stamp
/// is not blank; a web game exactly where its page is there and the stamp is not
/// blank. Its version is then the stamp without the white space around it. What is
/// not in the catalog is not installed.
pub proof fn law_installed(
    game: GameFacts,
    platform: Platform,
    has_index: bool,
    names: Seq<Option<Seq<char>>>,
    stamp: Seq<char>,
)
    ensures
        ({
            let there = match game.delivery {
                DeliveryFacts::Web { .. } => has_index,
                DeliveryFacts::Native { .. } => exists|i: int|
                    0 <= i < names.len() && ends_launchable(platform, #[trigger] names[i]),
            };
            let written = exists|k: int| 0 <= k < stamp.len() && !white_space(#[trigger] stamp[k]);
            let version = version_installed(Some(game), platform, has_index, names, Some(stamp));
            version == (if there && written {
                Some(trimmed(stamp))
            } else {
                None
            })
        }),
        version_installed(Some(game), platform, has_index, names, None) is None,
        version_installed(None, platform, has_index, names, Some(stamp)) is None,
{
    match launchable(platform) {
        Some(ext) => {
            law_first_entry(names, ext);
            match entry_with(names, ext) {
                Some(i) => {
                    lemma_launchable(platform, names[i as int]);
                },
                None => {
                    assert forall|i: int| 0 <= i < names.len() implies !ends_launchable(
                        platform,
                        #[trigger] names[i],
                    ) by {
                        lemma_launchable(platform, names[i]);
                    }
                },
            }
        },
        None => {
            lemma_launchable(platform, None);
        },
    }
    law_trimmed(stamp);
    let (a, b) = choose|a: int, b: int|
        0 <= a <= b <= stamp.len() && trimmed(stamp) == #[trigger] stamp.subrange(a, b) && (forall|
            k: int,
        |
            0 <= k < stamp.len() && !(a <= k < b) ==> white_space(#[trigger] stamp[k])) && (a < b
            ==> !white_space(stamp[a]) && !white_space(stamp[b - 1]));
    if a < b {
        assert(!white_space(stamp[a]));
    }
}

/// A native game can be launched exactly where some entry, at whatever place in the
/// listing, is an `.app` on a Mac or an `.exe` on Windows.
pub proof fn law_native_present(platform: Platform, names: Seq<Option<Seq<char>>>)
    ensures
        native_present(platform, names) <==> exists|i: int|
            0 <= i < names.len() && ends_launchable(platform, #[trigger] names[i]),
{
    lemma_launchable(platform, None);
    match launchable(platform) {
        Some(ext) => {
            law_first_entry(names, ext);
            assert forall|i: int| 0 <= i < names.len() implies ends_launchable(
                platform,
                #[trigger] names[i],
            ) == has_extension(names[i], ext) by {
                lemma_launchable(platform, names[i]);
            }
        },
        None => {},
    }
}

/// The names of entries are those of the entries, one by one.
pub proof fn law_names(entries: Seq<Option<String>>)
    ensures
        names(entries).len() == entries.len(),
        forall|k: int|
            0 <= k < entries.len() ==> #[trigger] names(entries)[k] == (match entries[k] {
                Some(name) => Some(name@),
                None => None,
            }),
{
}

} // verus!
