//! Releases as GitHub lists them, and the search for the newest one that
//! carries a game.

use crate::catalog::catalog_rows;
use crate::http::{reason_phrase, status_shown, success, HttpStatus};
use crate::json::{document_in, parse, Json, JsonTree};
use crate::platform::Platform;
use crate::search::{first, lemma_first, lemma_first_found};
use crate::text::{
    decimal, ends_with, has_suffix, joined_pair, law_without_leading, same_text,
    trim_start_matches, without_leading,
};
use vstd::prelude::*;

verus! {

/// What the launcher says when GitHub has stopped answering it.
pub const RATE_LIMITED: &'static str =
    "GitHub is rate-limiting this machine (60 checks an hour). Version unknown until it clears \u{2014} usually within the hour.";

// ---- The assets of a release ---------------------------------------------------------

/// The address of an asset, where its name ends in `suffix` and it has one.
pub open spec fn link(asset: JsonTree, suffix: Seq<char>) -> Option<Seq<char>> {
    match asset.member("name"@).text() {
        Some(name) => if has_suffix(name, suffix) {
            asset.member("browser_download_url"@).text()
        } else {
            None
        },
        None => None,
    }
}

/// The asset has such an address.
pub open spec fn has_link(suffix: Seq<char>) -> spec_fn(JsonTree) -> bool {
    |asset: JsonTree| link(asset, suffix) is Some
}

/// The first address among the assets.
pub open spec fn first_link(assets: Seq<JsonTree>, suffix: Seq<char>) -> Option<Seq<char>> {
    match first(assets, has_link(suffix)) {
        Some(asset) => link(asset, suffix),
        None => None,
    }
}

/// The address of the bundle that a release carries, by the ending of its name.
pub open spec fn bundle_link(release: JsonTree, suffix: Seq<char>) -> Option<Seq<char>> {
    match release.member("assets"@).list() {
        Some(assets) => first_link(assets, suffix),
        None => None,
    }
}

/// The address, name and size of an asset, where its name ends in `suffix` and
/// it has an address. A size that is not given is zero.
pub open spec fn offer(asset: JsonTree, suffix: Seq<char>) -> Option<(Seq<char>, Seq<char>, u64)> {
    match (asset.member("name"@).text(), asset.member("browser_download_url"@).text()) {
        (Some(name), Some(url)) => if has_suffix(name, suffix) {
            Some(
                (
                    url,
                    name,
                    match asset.member("size"@).number() {
                        Some(n) => n,
                        None => 0,
                    },
                ),
            )
        } else {
            None
        },
        _ => None,
    }
}

/// The asset is such an offer.
pub open spec fn has_offer(suffix: Seq<char>) -> spec_fn(JsonTree) -> bool {
    |asset: JsonTree| offer(asset, suffix) is Some
}

/// The first offer among the assets.
pub open spec fn first_offer(assets: Seq<JsonTree>, suffix: Seq<char>) -> Option<
    (Seq<char>, Seq<char>, u64),
> {
    match first(assets, has_offer(suffix)) {
        Some(asset) => offer(asset, suffix),
        None => None,
    }
}

/// What a release offers of a payload, by the ending of its name.
pub open spec fn payload_offer(release: JsonTree, suffix: Seq<char>) -> Option<
    (Seq<char>, Seq<char>, u64),
> {
    match release.member("assets"@).list() {
        Some(assets) => first_offer(assets, suffix),
        None => None,
    }
}

/// The address of the bundle that a release carries. The asset is found by the
/// ending of its name, so that a game can put its version into the name.
pub fn bundle_url(release: &Json, asset: &str) -> (url: Option<String>)
    ensures
        (match url {
            Some(u) => Some(u@),
            None => None,
        }) == bundle_link(release@, asset@),
{
    let assets = match release.list_at("assets") {
        Some(assets) => assets,
        None => {
            return None;
        },
    };
    let ghost trees = release@.member("assets"@).list()->0;
    let mut i: usize = 0;
    while i < assets.len()
        invariant
            i <= assets.len(),
            trees.len() == assets@.len(),
            forall|k: int| 0 <= k < assets@.len() ==> #[trigger] trees[k] == assets@[k]@,
            forall|k: int| 0 <= k < i ==> link(#[trigger] trees[k], asset@) is None,
            bundle_link(release@, asset@) == first_link(trees, asset@),
        decreases assets.len() - i,
    {
        let a = &assets[i];
        proof {
            assert(trees[i as int] == a@);
        }
        match a.text_at("name") {
            Some(name) => {
                if ends_with(name.as_str(), asset) {
                    match a.text_at("browser_download_url") {
                        Some(url) => {
                            proof {
                                lemma_first(trees, has_link(asset@), i as int);
                            }
                            return Some(url.clone());
                        },
                        None => {},
                    }
                }
            },
            None => {},
        }
        i += 1;
    }
    proof {
        lemma_first(trees, has_link(asset@), i as int);
    }
    None
}

/// The address, the file name and the expected size of a payload that a release
/// carries, found by the ending of its name.
pub fn payload_asset(release: &Json, asset: &str) -> (found: Option<(String, String, u64)>)
    ensures
        (match found {
            Some(f) => Some((f.0@, f.1@, f.2)),
            None => None,
        }) == payload_offer(release@, asset@),
{
    let assets = match release.list_at("assets") {
        Some(assets) => assets,
        None => {
            return None;
        },
    };
    let ghost trees = release@.member("assets"@).list()->0;
    let mut i: usize = 0;
    while i < assets.len()
        invariant
            i <= assets.len(),
            trees.len() == assets@.len(),
            forall|k: int| 0 <= k < assets@.len() ==> #[trigger] trees[k] == assets@[k]@,
            forall|k: int| 0 <= k < i ==> offer(#[trigger] trees[k], asset@) is None,
            payload_offer(release@, asset@) == first_offer(trees, asset@),
        decreases assets.len() - i,
    {
        let a = &assets[i];
        proof {
            assert(trees[i as int] == a@);
        }
        match a.text_at("name") {
            Some(name) => {
                if ends_with(name.as_str(), asset) {
                    match a.text_at("browser_download_url") {
                        Some(url) => {
                            proof {
                                lemma_first(trees, has_offer(asset@), i as int);
                            }
                            let size = a.number_at("size").unwrap_or(0);
                            return Some((url.clone(), name.clone(), size));
                        },
                        None => {},
                    }
                }
            },
            None => {},
        }
        i += 1;
    }
    proof {
        lemma_first(trees, has_offer(asset@), i as int);
    }
    None
}

// ---- The newest release ----------------------------------------------------------------

/// The release is neither a draft nor a prerelease.
pub open spec fn published(release: JsonTree) -> bool {
    release.member("draft"@).flag() != Some(true) && release.member("prerelease"@).flag() != Some(
        true,
    )
}

/// The tag of a release, empty where there is none.
pub open spec fn tag_of(release: JsonTree) -> Seq<char> {
    match release.member("tag_name"@).text() {
        Some(tag) => tag,
        None => Seq::empty(),
    }
}

/// The notes of a release, empty where there are none.
pub open spec fn notes_of(release: JsonTree) -> Seq<char> {
    match release.member("body"@).text() {
        Some(body) => body,
        None => Seq::empty(),
    }
}

/// The release is published, carries the bundle and has a tag.
pub open spec fn carries(release: JsonTree, suffix: Seq<char>) -> bool {
    published(release) && bundle_link(release, suffix) is Some && tag_of(release).len() > 0
}

/// The release carries the bundle.
pub open spec fn carrying(suffix: Seq<char>) -> spec_fn(JsonTree) -> bool {
    |release: JsonTree| carries(release, suffix)
}

/// The first of the releases, listed from the newest on, that carries the bundle.
pub open spec fn newest(releases: Seq<JsonTree>, suffix: Seq<char>) -> Option<JsonTree> {
    first(releases, carrying(suffix))
}

/// The newest release in GitHub's answer, or why there is none.
pub open spec fn newest_in(answer: JsonTree, suffix: Seq<char>) -> Result<JsonTree, Seq<char>> {
    match answer.list() {
        Some(releases) => match newest(releases, suffix) {
            Some(release) => Ok(release),
            None => Err("no published game release found"@),
        },
        None => Err("unexpected GitHub response"@),
    }
}

/// The newest release in the text of GitHub's answer, or why there is none.
pub open spec fn newest_in_body(body: Seq<u8>, suffix: Seq<char>) -> Result<JsonTree, Seq<char>> {
    match document_in(body) {
        Some(answer) => newest_in(answer, suffix),
        None => Err("error decoding response body"@),
    }
}

/// What a release or an error says.
pub open spec fn release_told(r: Result<Json, String>) -> Result<JsonTree, Seq<char>> {
    match r {
        Ok(j) => Ok(j@),
        Err(e) => Err(e@),
    }
}

/// Whether a release is published, carries the bundle and has a tag.
pub fn is_game_release(release: &Json, asset: &str) -> (yes: bool)
    ensures
        yes == carries(release@, asset@),
{
    if release.flag_at("draft") == Some(true) || release.flag_at("prerelease") == Some(true) {
        return false;
    }
    if bundle_url(release, asset).is_none() {
        return false;
    }
    match release.text_at("tag_name") {
        Some(tag) => !tag.as_str().is_empty(),
        None => false,
    }
}

/// The newest release that carries the bundle, out of GitHub's list of them.
pub fn newest_release(answer: &Json, asset: &str) -> (release: Result<Json, String>)
    ensures
        release_told(release) == newest_in(answer@, asset@),
{
    match answer {
        Json::List(releases) => {
            let ghost trees = answer@->List_0;
            let mut i: usize = 0;
            while i < releases.len()
                invariant
                    i <= releases.len(),
                    *answer == Json::List(*releases),
                    trees == answer@->List_0,
                    forall|k: int| 0 <= k < i ==> !carries(#[trigger] trees[k], asset@),
                decreases releases.len() - i,
            {
                proof {
                    assert(trees[i as int] == releases@[i as int]@);
                }
                if is_game_release(&releases[i], asset) {
                    proof {
                        lemma_first(trees, carrying(asset@), i as int);
                    }
                    return Ok(releases[i].duplicate());
                }
                i += 1;
            }
            proof {
                lemma_first(trees, carrying(asset@), i as int);
            }
            Err("no published game release found".to_owned())
        },
        _ => Err("unexpected GitHub response".to_owned()),
    }
}

/// The newest release that carries the bundle, out of the text of GitHub's answer.
pub fn newest_release_in(body: &[u8], asset: &str) -> (release: Result<Json, String>)
    ensures
        release_told(release) == newest_in_body(body@, asset@),
{
    match parse(body) {
        Some(answer) => newest_release(&answer, asset),
        None => Err("error decoding response body".to_owned()),
    }
}

/// The version, address and notes of a release.
pub struct Latest {
    pub version: String,
    pub url: String,
    pub notes: String,
}

#[verifier::ext_equal]
pub struct LatestFacts {
    pub version: Seq<char>,
    pub url: Seq<char>,
    pub notes: Seq<char>,
}

impl View for Latest {
    type V = LatestFacts;

    open spec fn view(&self) -> LatestFacts {
        LatestFacts { version: self.version@, url: self.url@, notes: self.notes@ }
    }
}

/// What is told of a release: its tag without the leading "v", the address of
/// the bundle, and the notes.
pub open spec fn latest_in(release: JsonTree, suffix: Seq<char>) -> Result<
    LatestFacts,
    Seq<char>,
> {
    match bundle_link(release, suffix) {
        Some(url) => Ok(
            LatestFacts {
                version: without_leading(tag_of(release), 'v'),
                url,
                notes: notes_of(release),
            },
        ),
        None => Err("no published game release found"@),
    }
}

/// What a `Latest` or an error says.
pub open spec fn latest_told(r: Result<Latest, String>) -> Result<LatestFacts, Seq<char>> {
    match r {
        Ok(l) => Ok(l@),
        Err(e) => Err(e@),
    }
}

/// The version, address and notes of a release.
pub fn latest_of(release: &Json, asset: &str) -> (latest: Result<Latest, String>)
    ensures
        latest_told(latest) == latest_in(release@, asset@),
{
    let version = match release.text_at("tag_name") {
        Some(tag) => trim_start_matches(tag.as_str(), 'v'),
        None => trim_start_matches("", 'v'),
    };
    proof {
        reveal_strlit("");
        assert(""@ =~= Seq::<char>::empty());
    }
    match bundle_url(release, asset) {
        Some(url) => {
            let notes = match release.text_at("body") {
                Some(body) => body.clone(),
                None => String::new(),
            };
            Ok(Latest { version, url, notes })
        },
        None => Err("no published game release found".to_owned()),
    }
}

// ---- Asking GitHub -------------------------------------------------------------------------

/// Why an answer of that status is no answer; nothing where it is one.
/// `remaining` is the header that counts the calls that are left.
pub open spec fn refusal(code: u16, remaining: Option<Seq<char>>) -> Option<Seq<char>> {
    if (code == 403 || code == 429) && remaining == Some("0"@) {
        Some(RATE_LIMITED@)
    } else if success(code) {
        None
    } else {
        Some("GitHub returned "@ + status_shown(code))
    }
}

/// Whether GitHub's answer can be read. The one failure that has a sentence of
/// its own is the limit on calls, which lasts an hour and is invisible from the
/// outside.
pub fn release_status(status: &HttpStatus, remaining: Option<&str>) -> (verdict: Result<(), String>)
    ensures
        (match verdict {
            Ok(_) => None,
            Err(e) => Some(e@),
        }) == refusal(
            status.code(),
            match remaining {
                Some(r) => Some(r@),
                None => None,
            },
        ),
{
    let code = status.as_u16();
    if code == 403 || code == 429 {
        let spent = match remaining {
            Some(r) => same_text(r, "0"),
            None => false,
        };
        if spent {
            return Err(RATE_LIMITED.to_owned());
        }
        return Err(joined_pair("GitHub returned ", status.shown().as_str()));
    }
    if !status.is_success() {
        return Err(joined_pair("GitHub returned ", status.shown().as_str()));
    }
    Ok(())
}

/// Where the releases of a repository are listed.
pub open spec fn releases_address(repo: Seq<char>) -> Seq<char> {
    "https://api.github.com/repos/"@ + repo + "/releases?per_page=20"@
}

/// Where the releases of a repository are listed.
pub fn releases_url(repo: &str) -> (url: String)
    ensures
        url@ == releases_address(repo@),
{
    let mut url = "https://api.github.com/repos/".to_owned();
    url.append(repo);
    url.append("/releases?per_page=20");
    url
}

// ---- Laws -----------------------------------------------------------------------------------

/// A game can put anything in front of the ending that the catalog names.
pub proof fn law_versioned_names(front: Seq<char>, suffix: Seq<char>)
    ensures
        has_suffix(front + suffix, suffix),
{
    assert((front + suffix).skip(front.len() as int) =~= suffix);
}

proof fn lemma_first_offer_like_link(assets: Seq<JsonTree>, suffix: Seq<char>)
    ensures
        first_link(assets, suffix) == (match first_offer(assets, suffix) {
            Some(o) => Some(o.0),
            None => None,
        }),
{
    lemma_first_found(assets, has_offer(suffix));
    match first(assets, has_offer(suffix)) {
        Some(asset) => {
            let i = choose|i: int|
                0 <= i < assets.len() && #[trigger] assets[i] == asset && forall|j: int|
                    0 <= j < i ==> !has_offer(suffix)(#[trigger] assets[j]);
            assert forall|j: int| 0 <= j < i implies !has_link(suffix)(#[trigger] assets[j]) by {
                assert(!has_offer(suffix)(assets[j]));
            }
            lemma_first(assets, has_link(suffix), i);
        },
        None => {
            assert forall|j: int| 0 <= j < assets.len() implies !has_link(suffix)(
                #[trigger] assets[j],
            ) by {
                assert(!has_offer(suffix)(assets[j]));
            }
            lemma_first(assets, has_link(suffix), assets.len() as int);
        },
    }
}

/// A payload is matched the same way as a bundle: the same asset is found, and
/// none where no bundle would be.
pub proof fn law_payload_like_bundle(release: JsonTree, suffix: Seq<char>)
    ensures
        bundle_link(release, suffix) == (match payload_offer(release, suffix) {
            Some(o) => Some(o.0),
            None => None,
        }),
{
    match release.member("assets"@).list() {
        Some(assets) => lemma_first_offer_like_link(assets, suffix),
        None => {},
    }
}

/// The newest release is the first in the list that is published, carries the
/// bundle and has a tag; there is none exactly where no release of the list is so.
pub proof fn law_newest_is_first(releases: Seq<JsonTree>, suffix: Seq<char>)
    ensures
        newest(releases, suffix) matches Some(r) ==> exists|i: int|
            0 <= i < releases.len() && #[trigger] releases[i] == r && carries(r, suffix) && forall|
                j: int,
            |
                0 <= j < i ==> !carries(#[trigger] releases[j], suffix),
        newest(releases, suffix) is None ==> forall|j: int|
            0 <= j < releases.len() ==> !carries(#[trigger] releases[j], suffix),
{
    lemma_first_found(releases, carrying(suffix));
    match newest(releases, suffix) {
        Some(r) => {
            let i = choose|i: int|
                0 <= i < releases.len() && #[trigger] releases[i] == r && forall|j: int|
                    0 <= j < i ==> !carrying(suffix)(#[trigger] releases[j]);
            assert forall|j: int| 0 <= j < i implies !carries(#[trigger] releases[j], suffix) by {
                assert(!carrying(suffix)(releases[j]));
            }
        },
        None => {
            assert forall|j: int| 0 <= j < releases.len() implies !carries(
                #[trigger] releases[j],
                suffix,
            ) by {
                assert(!carrying(suffix)(releases[j]));
            }
        },
    }
}

/// What is told of a release: its tag is a run of the letter v followed by the
/// whole of the version, which does not start with a v itself; the address is that
/// of the bundle; and the notes are those of the release. It is told exactly where
/// the release has the bundle.
pub proof fn law_told(release: JsonTree, suffix: Seq<char>)
    ensures
        latest_in(release, suffix) is Ok <==> bundle_link(release, suffix) is Some,
        latest_in(release, suffix) matches Err(e) ==> e == "no published game release found"@,
        latest_in(release, suffix) matches Ok(latest) ==> {
            let tag = match release.member("tag_name"@) {
                JsonTree::Text(tag) => tag,
                _ => Seq::empty(),
            };
            let n = tag.len() - latest.version.len();
            &&& 0 <= n
            &&& tag == Seq::new(n as nat, |k: int| 'v') + latest.version
            &&& latest.version.len() > 0 ==> latest.version[0] != 'v'
            &&& Some(latest.url) == bundle_link(release, suffix)
            &&& latest.notes == (match release.member("body"@) {
                JsonTree::Text(body) => body,
                _ => Seq::empty(),
            })
        },
{
    law_without_leading(tag_of(release), 'v');
}

/// The newest release can always be told, and has a tag.
pub proof fn law_newest_is_told(releases: Seq<JsonTree>, suffix: Seq<char>)
    ensures
        newest(releases, suffix) matches Some(r) ==> latest_in(r, suffix) is Ok && Some(
            latest_in(r, suffix)->Ok_0.url,
        ) == bundle_link(r, suffix) && (r.member(
            "tag_name"@,
        ) matches JsonTree::Text(tag) && tag.len() > 0),
{
    law_newest_is_first(releases, suffix);
}

/// A release carries a game exactly where it is neither a draft nor a prerelease,
/// has the bundle and has a tag that is not empty.
pub proof fn law_carries(release: JsonTree, suffix: Seq<char>)
    ensures
        carries(release, suffix) <==> release.member("draft"@) != JsonTree::Flag(true)
            && release.member("prerelease"@) != JsonTree::Flag(true) && bundle_link(release, suffix)
            is Some && (release.member("tag_name"@) matches JsonTree::Text(tag) && tag.len() > 0),
{
}

/// The asset's name ends in the suffix, and it has an address.
pub open spec fn matching(asset: JsonTree, suffix: Seq<char>) -> bool {
    asset.member("browser_download_url"@) is Text && (asset.member("name"@) matches JsonTree::Text(
        name,
    ) && has_suffix(name, suffix))
}

/// Of the assets of a release the first one is taken whose name ends in the suffix
/// and that has an address, whatever its name starts with: its own address, name and
/// size, the size zero where it is not given as a whole number.
pub proof fn law_first_asset(
    release: JsonTree,
    assets: Seq<JsonTree>,
    i: int,
    front: Seq<char>,
    suffix: Seq<char>,
    url: Seq<char>,
)
    requires
        release.member("assets"@) == JsonTree::List(assets),
        0 <= i < assets.len(),
        assets[i].member("name"@) == JsonTree::Text(front + suffix),
        assets[i].member("browser_download_url"@) == JsonTree::Text(url),
        forall|j: int| 0 <= j < i ==> !matching(#[trigger] assets[j], suffix),
    ensures
        bundle_link(release, suffix) == Some(url),
        payload_offer(release, suffix) == Some(
            (
                url,
                front + suffix,
                match assets[i].member("size"@) {
                    JsonTree::Number(Some(n)) => n,
                    _ => 0u64,
                },
            ),
        ),
{
    law_versioned_names(front, suffix);
    assert forall|j: int| 0 <= j < i implies !has_link(suffix)(#[trigger] assets[j])
        && !has_offer(suffix)(assets[j]) by {
        assert(!matching(assets[j], suffix));
    }
    lemma_first(assets, has_link(suffix), i);
    lemma_first(assets, has_offer(suffix), i);
}

/// Where no asset is such a one, or there is no list of assets, none is taken.
pub proof fn law_no_asset(release: JsonTree, suffix: Seq<char>)
    requires
        match release.member("assets"@) {
            JsonTree::List(assets) => forall|j: int|
                0 <= j < assets.len() ==> !matching(#[trigger] assets[j], suffix),
            _ => true,
        },
    ensures
        bundle_link(release, suffix) is None,
        payload_offer(release, suffix) is None,
{
    match release.member("assets"@) {
        JsonTree::List(assets) => {
            assert forall|j: int| 0 <= j < assets.len() implies !has_link(suffix)(
                #[trigger] assets[j],
            ) && !has_offer(suffix)(assets[j]) by {
                assert(!matching(assets[j], suffix));
            }
            lemma_first(assets, has_link(suffix), assets.len() as int);
            lemma_first(assets, has_offer(suffix), assets.len() as int);
        },
        _ => {},
    }
}

/// What GitHub's answer comes to: the first release of the list that carries the
/// game, or what is said where there is none, no list, or no document.
pub proof fn law_answers(body: Seq<u8>, suffix: Seq<char>)
    ensures
        newest_in_body(body, suffix) == (match document_in(body) {
            None => Err::<JsonTree, Seq<char>>("error decoding response body"@),
            Some(JsonTree::List(releases)) => match newest(releases, suffix) {
                Some(release) => Ok(release),
                None => Err("no published game release found"@),
            },
            Some(_) => Err("unexpected GitHub response"@),
        }),
{
}

/// A status from 200 to 299 is an answer. The limit on calls is a 403 or a 429 with
/// none left; every other status is told by its number and phrase.
pub proof fn law_refusals(code: u16, remaining: Option<Seq<char>>)
    ensures
        refusal(code, remaining) == (if 200 <= code && code <= 299 {
            None
        } else if (code == 403 || code == 429) && remaining == Some("0"@) {
            Some(
                "GitHub is rate-limiting this machine (60 checks an hour). Version unknown until it clears \u{2014} usually within the hour."@,
            )
        } else {
            Some("GitHub returned "@ + decimal(code as nat) + " "@ + reason_phrase(code))
        }),
{
    if !(200 <= code && code <= 299) {
        assert("GitHub returned "@ + status_shown(code) =~= "GitHub returned "@ + decimal(
            code as nat,
        ) + " "@ + reason_phrase(code));
    }
}

/// Where the releases of a repository are listed, the newest twenty of them.
pub proof fn law_releases_address(repo: Seq<char>)
    ensures
        releases_address(repo) == "https://api.github.com/repos/"@ + repo
            + "/releases?per_page=20"@,
{
}

/// A release that carries nothing but a payload never passes for the newest
/// release of a game: no name ends both as a payload's does and as a bundle's does.
pub proof fn law_payload_is_no_bundle(
    release: JsonTree,
    owner: int,
    asset: int,
    game: int,
    platform: Platform,
)
    requires
        0 <= owner < catalog_rows().len(),
        catalog_rows()[owner].payload is Some,
        0 <= asset < catalog_rows()[owner].payload->0.assets.len(),
        0 <= game < catalog_rows().len(),
        release.member("assets"@).list() matches Some(assets) ==> forall|k: int|
            0 <= k < assets.len() ==> ((#[trigger] assets[k]).member("name"@).text() matches Some(
                name,
            ) ==> has_suffix(name, catalog_rows()[owner].payload->0.assets[asset])),
    ensures
        !carries(release, catalog_rows()[game].delivery.suffix(platform)),
{
    reveal_strlit(".gguf");
    reveal_strlit("wingman-game.zip");
    reveal_strlit("crashout-game.zip");
    reveal_strlit("-macos-aarch64.app.tar.gz");
    reveal_strlit("-windows-x86_64.zip");
    let ending = catalog_rows()[owner].payload->0.assets[asset];
    let suffix = catalog_rows()[game].delivery.suffix(platform);
    assert(ending == ".gguf"@);
    assert(ending.last() == 'f');
    assert(suffix.len() > 0 && suffix.last() != 'f');
    match release.member("assets"@).list() {
        Some(assets) => {
            assert forall|k: int| 0 <= k < assets.len() implies !has_link(suffix)(
                #[trigger] assets[k],
            ) by {
                match assets[k].member("name"@).text() {
                    Some(name) => {
                        assert(name.skip(name.len() - ending.len()).last() == name.last());
                        if has_suffix(name, suffix) {
                            assert(name.skip(name.len() - suffix.len()).last() == name.last());
                        }
                    },
                    None => {},
                }
            }
            lemma_first(assets, has_link(suffix), assets.len() as int);
        },
        None => {},
    }
}

/// A `Latest`, a release and an error say what they hold.
pub proof fn law_tellings(latest: Latest, release: Json, e: String)
    ensures
        latest@.version == latest.version@,
        latest@.url == latest.url@,
        latest@.notes == latest.notes@,
        latest_told(Ok(latest)) == Ok::<LatestFacts, Seq<char>>(latest@),
        latest_told(Err(e)) == Err::<LatestFacts, Seq<char>>(e@),
        release_told(Ok(release)) == Ok::<JsonTree, Seq<char>>(release@),
        release_told(Err(e)) == Err::<JsonTree, Seq<char>>(e@),
{
}

} // verus!
