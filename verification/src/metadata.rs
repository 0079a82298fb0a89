//! What the metadata document of each source says of the latest release:
//! its version, where to download it, and the name to show.

use vstd::prelude::*;
use vstd::string::*;
use crate::addon::{Addon, AddonKind, AddonKindView, AddonView};
use crate::failure::Failure;
use crate::json::{views, Json, JsonView};
use crate::text::{after_last, chars_of, last_segment, lowered, occurs, occurs_in, to_lowercase};

verus! {

/// The version that a release gives: its tag, or its name where the tag is
/// empty. A release without a tag gives none.
pub open spec fn release_version(release: JsonView) -> Option<Seq<char>> {
    match release.text_at("tag_name"@) {
        Some(tag) => if tag.len() > 0 {
            Some(tag)
        } else {
            release.text_at("name"@)
        },
        None => None,
    }
}

/// The last of `items` whose member `key` is the text `wanted`.
pub open spec fn last_with_text(items: Seq<JsonView>, key: Seq<char>, wanted: Seq<char>) -> Option<
    JsonView,
>
    decreases items.len(),
{
    if items.len() == 0 {
        None
    } else if items.last().text_at(key) == Some(wanted) {
        Some(items.last())
    } else {
        last_with_text(items.drop_last(), key, wanted)
    }
}

/// The entry of a catalogue that speaks of `project`: the last element of
/// the array whose `id` is `project`.
pub open spec fn catalog_entry(catalog: JsonView, project: Seq<char>) -> Option<JsonView> {
    match catalog.items() {
        Some(entries) => last_with_text(entries, "id"@, project),
        None => None,
    }
}

/// `text` holds the word of a game flavour.
pub open spec fn holds_flavour(text: Seq<char>) -> bool {
    ||| occurs_in("bcc"@, text)
    ||| occurs_in("tbc"@, text)
    ||| occurs_in("wotlk"@, text)
    ||| occurs_in("wrath"@, text)
    ||| occurs_in("classic"@, text)
}

/// `name` holds the word of a game flavour, in whatever case.
pub open spec fn names_flavour(name: Seq<char>) -> bool {
    holds_flavour(lowered(name))
}

/// An asset with a name that holds no word of a game flavour.
pub open spec fn is_plain_asset(asset: JsonView) -> bool {
    match asset.text_at("name"@) {
        Some(name) => !names_flavour(name),
        None => false,
    }
}

/// The first of `assets` that is plain.
pub open spec fn first_plain_asset(assets: Seq<JsonView>) -> Option<JsonView>
    decreases assets.len(),
{
    if assets.len() == 0 {
        None
    } else if is_plain_asset(assets.first()) {
        Some(assets.first())
    } else {
        first_plain_asset(assets.drop_first())
    }
}

/// The assets that a release lists; none where it has no such list or an
/// empty one.
pub open spec fn listed_assets(release: JsonView) -> Option<Seq<JsonView>> {
    match release.member("assets"@) {
        Some(JsonView::Array(assets)) => if assets.len() > 0 {
            Some(assets)
        } else {
            None
        },
        _ => None,
    }
}

/// Where a release is downloaded from: the address of its first plain asset,
/// or that of its source archive where it lists no assets.
pub open spec fn release_download(release: JsonView) -> Option<Seq<char>> {
    match listed_assets(release) {
        Some(assets) => match first_plain_asset(assets) {
            Some(asset) => asset.text_at("browser_download_url"@),
            None => None,
        },
        None => release.text_at("zipball_url"@),
    }
}

/// The source archive of a branch.
pub open spec fn branch_archive(project: Seq<char>, branch: Seq<char>) -> Seq<char> {
    "https://www.github.com/"@ + project + "/archive/refs/heads/"@ + branch + ".zip"@
}

/// The source archives of a release, as GitLab lists them.
pub open spec fn release_sources(release: JsonView) -> Option<Seq<JsonView>> {
    match release.member("assets"@) {
        Some(assets) => match assets.member("sources"@) {
            Some(sources) => sources.items(),
            None => None,
        },
        None => None,
    }
}

/// The address of the zip among the source archives of a release: of the
/// last one where several are zips.
pub open spec fn zip_source(release: JsonView) -> Option<Seq<char>> {
    match release_sources(release) {
        Some(sources) => match last_with_text(sources, "format"@, "zip"@) {
            Some(source) => source.text_at("url"@),
            None => None,
        },
        None => None,
    }
}

/// The text that the member `key` of the first element of `list` holds.
pub open spec fn first_text_at(list: JsonView, key: Seq<char>) -> Option<Seq<char>> {
    match list.element(0) {
        Some(first) => first.text_at(key),
        None => None,
    }
}

/// The text that the member `key` of the catalogue entry of `project` holds.
pub open spec fn entry_text_at(catalog: JsonView, project: Seq<char>, key: Seq<char>) -> Option<
    Seq<char>,
> {
    match catalog_entry(catalog, project) {
        Some(entry) => entry.text_at(key),
        None => None,
    }
}

/// The latest version that `document` gives an add-on of `project` at the
/// source `kind`; none where the document lacks it.
pub open spec fn version_of(kind: AddonKindView, project: Seq<char>, document: JsonView) -> Option<
    Seq<char>,
> {
    match kind {
        AddonKindView::GithubRelease => release_version(document),
        AddonKindView::GithubRepo { .. } => document.text_at("sha"@),
        AddonKindView::TukuiMain => document.text_at("version"@),
        AddonKindView::TukuiAddon => entry_text_at(document, project, "version"@),
        AddonKindView::Gitlab => match document.element(0) {
            Some(newest) => release_version(newest),
            None => None,
        },
        AddonKindView::WowInt => first_text_at(document, "UIVersion"@),
    }
}

/// Where `document` says the latest release is downloaded from; none where
/// the document lacks it.
pub open spec fn download_of(kind: AddonKindView, project: Seq<char>, document: JsonView) -> Option<
    Seq<char>,
> {
    match kind {
        AddonKindView::GithubRelease => release_download(document),
        AddonKindView::GithubRepo { branch } => Some(branch_archive(project, branch)),
        AddonKindView::TukuiMain => document.text_at("url"@),
        AddonKindView::TukuiAddon => entry_text_at(document, project, "url"@),
        AddonKindView::Gitlab => match document.element(0) {
            Some(newest) => zip_source(newest),
            None => None,
        },
        AddonKindView::WowInt => first_text_at(document, "UIDownload"@),
    }
}

/// The name to show: the last segment of the project where the source is a
/// repository, else what `document` gives.
pub open spec fn name_of(kind: AddonKindView, project: Seq<char>, document: JsonView) -> Option<
    Seq<char>,
> {
    match kind {
        AddonKindView::GithubRelease => Some(after_last(project, '/')),
        AddonKindView::GithubRepo { .. } => Some(after_last(project, '/')),
        AddonKindView::Gitlab => Some(after_last(project, '/')),
        AddonKindView::TukuiMain => document.text_at("name"@),
        AddonKindView::TukuiAddon => entry_text_at(document, project, "name"@),
        AddonKindView::WowInt => first_text_at(document, "UIName"@),
    }
}

/// The version of a release is its tag where the tag is not empty, and its
/// name where the tag is empty.
pub proof fn tag_before_name(project: Seq<char>, release: JsonView)
    ensures
        match release.text_at("tag_name"@) {
            Some(tag) => version_of(AddonKindView::GithubRelease, project, release) == if tag.len()
                > 0 {
                Some(tag)
            } else {
                release.text_at("name"@)
            },
            None => version_of(AddonKindView::GithubRelease, project, release) is None,
        },
{
}

/// What `first_plain_asset` finds is plain and stands before every other
/// plain asset; it finds none only where no asset is plain.
pub proof fn first_plain_asset_is_first(assets: Seq<JsonView>)
    ensures
        match first_plain_asset(assets) {
            Some(asset) => exists|at: int|
                {
                    &&& 0 <= at < assets.len()
                    &&& #[trigger] assets[at] == asset
                    &&& is_plain_asset(asset)
                    &&& forall|j: int| 0 <= j < at ==> !is_plain_asset(assets[j])
                },
            None => forall|j: int| 0 <= j < assets.len() ==> !is_plain_asset(assets[j]),
        },
    decreases assets.len(),
{
    if assets.len() > 0 {
        if is_plain_asset(assets.first()) {
            assert(assets[0] == assets.first());
        } else {
            let rest = assets.drop_first();
            first_plain_asset_is_first(rest);
            match first_plain_asset(rest) {
                Some(asset) => {
                    let at = choose|at: int|
                        {
                            &&& 0 <= at < rest.len()
                            &&& #[trigger] rest[at] == asset
                            &&& is_plain_asset(asset)
                            &&& forall|j: int| 0 <= j < at ==> !is_plain_asset(rest[j])
                        };
                    assert(assets[at + 1] == asset);
                    assert forall|j: int| 0 <= j < at + 1 implies !is_plain_asset(assets[j]) by {
                        if j > 0 {
                            assert(assets[j] == rest[j - 1]);
                        }
                    }
                },
                None => {
                    assert forall|j: int| 0 <= j < assets.len() implies !is_plain_asset(
                        assets[j],
                    ) by {
                        if j > 0 {
                            assert(assets[j] == rest[j - 1]);
                        }
                    }
                },
            }
        }
    }
}

/// A release that lists a plain asset is downloaded from a plain asset, the
/// first of them, whatever assets of a game flavour it lists before or
/// after it.
pub proof fn plain_asset_is_preferred(project: Seq<char>, release: JsonView, at: int)
    requires
        listed_assets(release) matches Some(assets) && 0 <= at < assets.len() && is_plain_asset(
            assets[at],
        ) && forall|j: int| 0 <= j < at ==> !is_plain_asset(assets[j]),
    ensures
        download_of(AddonKindView::GithubRelease, project, release) == listed_assets(
            release,
        )->0[at].text_at("browser_download_url"@),
{
    let assets = listed_assets(release)->0;
    first_plain_asset_is_first(assets);
    let found = first_plain_asset(assets);
    assert(found is Some);
    let first = choose|first: int|
        {
            &&& 0 <= first < assets.len()
            &&& #[trigger] assets[first] == found->0
            &&& is_plain_asset(found->0)
            &&& forall|j: int| 0 <= j < first ==> !is_plain_asset(assets[j])
        };
    assert(first == at);
}

/// The version that `release` gives.
pub fn version_in_release(release: &Json) -> (r: Option<&str>)
    ensures
        match r {
            Some(v) => release_version(release@) == Some(v@),
            None => release_version(release@) is None,
        },
{
    match release.text_at("tag_name") {
        Some(tag) => if !tag.is_empty() {
            Some(tag)
        } else {
            release.text_at("name")
        },
        None => None,
    }
}

/// The last of `items` whose member `key` is the text `wanted`.
pub fn find_last_with_text<'a>(items: &'a Vec<Json>, key: &str, wanted: &str) -> (r: Option<
    &'a Json,
>)
    ensures
        match r {
            Some(item) => last_with_text(views(items@), key@, wanted@) == Some(item@),
            None => last_with_text(views(items@), key@, wanted@) is None,
        },
{
    let ghost all = views(items@);
    let sought = wanted.to_owned();
    let mut i: usize = items.len();
    assert(all.take(i as int) =~= all);
    while i > 0
        invariant
            i <= items.len(),
            all == views(items@),
            sought@ == wanted@,
            last_with_text(all, key@, wanted@) == last_with_text(
                all.take(i as int),
                key@,
                wanted@,
            ),
        decreases i,
    {
        proof {
            assert(all.take(i as int).drop_last() =~= all.take(i - 1));
            assert(all.take(i as int).last() == all[i - 1]);
        }
        let found = match items[i - 1].text_at(key) {
            Some(t) => t.to_owned() == sought,
            None => false,
        };
        if found {
            return Some(&items[i - 1]);
        }
        i -= 1;
    }
    None
}

/// Whether `text` holds the word of a game flavour, in lower case.
pub fn flavour_in(text: &str) -> (r: bool)
    ensures
        r == holds_flavour(text@),
{
    let hay = chars_of(text);
    occurs(&chars_of("bcc"), &hay) || occurs(&chars_of("tbc"), &hay) || occurs(
        &chars_of("wotlk"),
        &hay,
    ) || occurs(&chars_of("wrath"), &hay) || occurs(&chars_of("classic"), &hay)
}

/// Whether `name` holds the word of a game flavour, in whatever case.
pub fn has_flavour(name: &str) -> (r: bool)
    ensures
        r == names_flavour(name@),
{
    flavour_in(to_lowercase(name).as_str())
}

/// Whether `asset` has a name that holds no word of a game flavour.
pub fn plain_asset(asset: &Json) -> (r: bool)
    ensures
        r == is_plain_asset(asset@),
{
    match asset.text_at("name") {
        Some(name) => !has_flavour(name),
        None => false,
    }
}

/// The first of `assets` that is plain.
pub fn find_plain_asset(assets: &Vec<Json>) -> (r: Option<&Json>)
    ensures
        match r {
            Some(asset) => first_plain_asset(views(assets@)) == Some(asset@),
            None => first_plain_asset(views(assets@)) is None,
        },
{
    let ghost all = views(assets@);
    let mut i: usize = 0;
    assert(all.skip(0) =~= all);
    while i < assets.len()
        invariant
            i <= assets.len(),
            all == views(assets@),
            first_plain_asset(all) == first_plain_asset(all.skip(i as int)),
        decreases assets.len() - i,
    {
        proof {
            assert(all.skip(i as int).drop_first() =~= all.skip(i + 1));
            assert(all.skip(i as int).first() == all[i as int]);
        }
        if plain_asset(&assets[i]) {
            return Some(&assets[i]);
        }
        i += 1;
    }
    None
}

/// Where `release` is downloaded from.
pub fn download_in_release(release: &Json) -> (r: Option<&str>)
    ensures
        match r {
            Some(url) => release_download(release@) == Some(url@),
            None => release_download(release@) is None,
        },
{
    let listed: Option<&Vec<Json>> = match release.get("assets") {
        Some(assets) => match assets.as_array() {
            Some(items) => if items.len() > 0 {
                Some(items)
            } else {
                None
            },
            None => None,
        },
        None => None,
    };
    match listed {
        Some(assets) => match find_plain_asset(assets) {
            Some(asset) => asset.text_at("browser_download_url"),
            None => None,
        },
        None => release.text_at("zipball_url"),
    }
}

/// The address of the zip among the source archives of `release`.
pub fn zip_in_release(release: &Json) -> (r: Option<&str>)
    ensures
        match r {
            Some(url) => zip_source(release@) == Some(url@),
            None => zip_source(release@) is None,
        },
{
    let sources: Option<&Vec<Json>> = match release.get("assets") {
        Some(assets) => match assets.get("sources") {
            Some(sources) => sources.as_array(),
            None => None,
        },
        None => None,
    };
    match sources {
        Some(sources) => match find_last_with_text(sources, "format", "zip") {
            Some(source) => source.text_at("url"),
            None => None,
        },
        None => None,
    }
}

/// The text that the member `key` of the first element of `list` holds.
pub fn text_in_first<'a>(list: &'a Json, key: &str) -> (r: Option<&'a str>)
    ensures
        match r {
            Some(t) => first_text_at(list@, key@) == Some(t@),
            None => first_text_at(list@, key@) is None,
        },
{
    match list.at(0) {
        Some(first) => first.text_at(key),
        None => None,
    }
}

/// The text that the member `key` of the catalogue entry of `project` holds.
pub fn text_in_entry<'a>(catalog: &'a Json, project: &str, key: &str) -> (r: Option<&'a str>)
    ensures
        match r {
            Some(t) => entry_text_at(catalog@, project@, key@) == Some(t@),
            None => entry_text_at(catalog@, project@, key@) is None,
        },
{
    match catalog.as_array() {
        Some(entries) => match find_last_with_text(entries, "id", project) {
            Some(entry) => entry.text_at(key),
            None => None,
        },
        None => None,
    }
}

/// The latest version that `document` gives an add-on of `project` at the
/// source `kind`.
pub fn read_version(kind: &AddonKind, project: &str, document: &Json) -> (r: Option<String>)
    ensures
        match r {
            Some(v) => version_of(kind@, project@, document@) == Some(v@),
            None => version_of(kind@, project@, document@) is None,
        },
{
    let found: Option<&str> = match kind {
        AddonKind::GithubRelease => version_in_release(document),
        AddonKind::GithubRepo { .. } => document.text_at("sha"),
        AddonKind::TukuiMain => document.text_at("version"),
        AddonKind::TukuiAddon => text_in_entry(document, project, "version"),
        AddonKind::Gitlab => match document.at(0) {
            Some(newest) => version_in_release(newest),
            None => None,
        },
        AddonKind::WowInt => text_in_first(document, "UIVersion"),
    };
    match found {
        Some(v) => Some(v.to_owned()),
        None => None,
    }
}

/// Where `document` says the latest release is downloaded from.
pub fn read_download(kind: &AddonKind, project: &str, document: &Json) -> (r: Option<String>)
    ensures
        match r {
            Some(url) => download_of(kind@, project@, document@) == Some(url@),
            None => download_of(kind@, project@, document@) is None,
        },
{
    let found: Option<&str> = match kind {
        AddonKind::GithubRelease => download_in_release(document),
        AddonKind::GithubRepo { branch } => {
            let mut url = String::from_str("https://www.github.com/");
            url.append(project);
            url.append("/archive/refs/heads/");
            url.append(branch.as_str());
            url.append(".zip");
            return Some(url);
        },
        AddonKind::TukuiMain => document.text_at("url"),
        AddonKind::TukuiAddon => text_in_entry(document, project, "url"),
        AddonKind::Gitlab => match document.at(0) {
            Some(newest) => zip_in_release(newest),
            None => None,
        },
        AddonKind::WowInt => text_in_first(document, "UIDownload"),
    };
    match found {
        Some(url) => Some(url.to_owned()),
        None => None,
    }
}

/// The name to show for an add-on of `project` at the source `kind`.
pub fn read_name(kind: &AddonKind, project: &str, document: &Json) -> (r: Option<String>)
    ensures
        match r {
            Some(name) => name_of(kind@, project@, document@) == Some(name@),
            None => name_of(kind@, project@, document@) is None,
        },
{
    let found: Option<&str> = match kind {
        AddonKind::GithubRelease => {
            return Some(last_segment(project, '/'));
        },
        AddonKind::GithubRepo { .. } => {
            return Some(last_segment(project, '/'));
        },
        AddonKind::Gitlab => {
            return Some(last_segment(project, '/'));
        },
        AddonKind::TukuiMain => document.text_at("name"),
        AddonKind::TukuiAddon => text_in_entry(document, project, "name"),
        AddonKind::WowInt => text_in_first(document, "UIName"),
    };
    match found {
        Some(name) => Some(name.to_owned()),
        None => None,
    }
}

impl Addon {
    /// Takes the latest version from `json` and says whether it differs from
    /// the one the add-on had. A document that gives no version is refused,
    /// and the add-on stays unchanged.
    pub fn set_version(&mut self, json: &Json) -> (r: Result<bool, Failure>)
        ensures
            match version_of(old(self)@.kind, old(self)@.project, json@) {
                Some(v) => {
                    &&& r == Ok::<bool, Failure>(old(self)@.version != Some(v))
                    &&& final(self)@ == (AddonView { version: Some(v), ..old(self)@ })
                },
                None => {
                    &&& r == Err::<bool, Failure>(Failure::UnexpectedMetadataShape)
                    &&& final(self)@ == old(self)@
                },
            },
    {
        match read_version(&self.kind, self.project.as_str(), json) {
            Some(v) => {
                let changed = match &self.version {
                    Some(old_version) => *old_version != v,
                    None => true,
                };
                self.version = Some(v);
                Ok(changed)
            },
            None => Err(Failure::UnexpectedMetadataShape),
        }
    }

    /// Takes from `json` the address that the latest release is downloaded
    /// from. A document that gives none is refused, and the add-on stays
    /// unchanged.
    pub fn set_download_url(&mut self, json: &Json) -> (r: Result<(), Failure>)
        ensures
            match download_of(old(self)@.kind, old(self)@.project, json@) {
                Some(url) => {
                    &&& r is Ok
                    &&& final(self)@ == (AddonView { download_url: Some(url), ..old(self)@ })
                },
                None => {
                    &&& r == Err::<(), Failure>(Failure::UnexpectedMetadataShape)
                    &&& final(self)@ == old(self)@
                },
            },
    {
        match read_download(&self.kind, self.project.as_str(), json) {
            Some(url) => {
                self.download_url = Some(url);
                Ok(())
            },
            None => Err(Failure::UnexpectedMetadataShape),
        }
    }

    /// Takes the name to show: from the project where the source is a
    /// repository, else from `json`. A document that lacks the name is
    /// refused, and the add-on stays unchanged.
    pub fn set_name(&mut self, json: &Json) -> (r: Result<(), Failure>)
        ensures
            match name_of(old(self)@.kind, old(self)@.project, json@) {
                Some(name) => {
                    &&& r is Ok
                    &&& final(self)@ == (AddonView { name: Some(name), ..old(self)@ })
                },
                None => {
                    &&& r == Err::<(), Failure>(Failure::UnexpectedMetadataShape)
                    &&& final(self)@ == old(self)@
                },
            },
    {
        match read_name(&self.kind, self.project.as_str(), json) {
            Some(name) => {
                self.name = Some(name);
                Ok(())
            },
            None => Err(Failure::UnexpectedMetadataShape),
        }
    }
}

} // verus!
