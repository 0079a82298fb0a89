//! From the address of an add-on's page to its descriptor.

use vstd::prelude::*;
use vstd::string::*;
use crate::addon::{addon_views, fresh, Addon, AddonKind, AddonKindView, AddonView};
use crate::pattern::{capture, captured};
use crate::text::{names_view, same, text_view};

verus! {

/// An address: an optional scheme and `www.`, the `domain`, `.com` or `.org`,
/// a slash, and the `rest`.
pub const ADDRESS: &'static str =
    "^(?:https?://)?(?:www\\.)?(?P<domain>.*)\\.(?:com|org)/(?P<rest>.*)";

/// The rest of a GitHub address: owner and repository as the `project`, and
/// what follows them, after an optional `tree/`, as the `branch`.
pub const GITHUB: &'static str = "^(?P<project>.+?/.+?)(?:/|$)(?:tree/)?(?P<branch>.+)?";

/// The rest of a Tukui address: the page as the `kind`, and the value of its
/// parameter as the `project`.
pub const TUKUI: &'static str = "^(?P<kind>download|addons)\\.php\\?(?:ui|id)=(?P<project>.*)";

/// The rest of a WoWInterface address: the digits of the file as the
/// `project`.
pub const WOWINTERFACE: &'static str = "^downloads/info(?P<project>\\d*)-";

/// The add-on of a GitHub address, from what [`GITHUB`] captured.
pub open spec fn github(project: Option<Seq<char>>, branch: Option<Seq<char>>) -> Option<
    AddonView,
> {
    match project {
        Some(project) => match branch {
            Some(branch) => Some(fresh(project, AddonKindView::GithubRepo { branch })),
            None => Some(fresh(project, AddonKindView::GithubRelease)),
        },
        None => None,
    }
}

/// The add-on of a Tukui address, from what [`TUKUI`] captured.
pub open spec fn tukui(kind: Option<Seq<char>>, project: Option<Seq<char>>) -> Option<AddonView> {
    match (kind, project) {
        (Some(kind), Some(project)) => if kind == "download"@ {
            Some(fresh(project, AddonKindView::TukuiMain))
        } else if kind == "addons"@ {
            Some(fresh(project, AddonKindView::TukuiAddon))
        } else {
            None
        },
        _ => None,
    }
}

/// The add-on of a WoWInterface address, from what [`WOWINTERFACE`] captured.
pub open spec fn wowinterface(project: Option<Seq<char>>) -> Option<AddonView> {
    match project {
        Some(project) => Some(fresh(project, AddonKindView::WowInt)),
        None => None,
    }
}

/// One of the four domains that add-ons are taken from.
pub open spec fn is_known_domain(domain: Seq<char>) -> bool {
    ||| domain == "github"@
    ||| domain == "gitlab"@
    ||| domain == "tukui"@
    ||| domain == "wowinterface"@
}

/// The add-on at `rest` of the domain `domain`.
pub open spec fn addon_at(domain: Seq<char>, rest: Seq<char>) -> Option<AddonView> {
    if domain == "github"@ {
        github(captured(GITHUB@, rest, "project"@), captured(GITHUB@, rest, "branch"@))
    } else if domain == "gitlab"@ {
        Some(fresh(rest, AddonKindView::Gitlab))
    } else if domain == "tukui"@ {
        tukui(captured(TUKUI@, rest, "kind"@), captured(TUKUI@, rest, "project"@))
    } else if domain == "wowinterface"@ {
        wowinterface(captured(WOWINTERFACE@, rest, "project"@))
    } else {
        None
    }
}

/// The add-on that an address speaks of; none where the address is not of
/// the form of [`ADDRESS`], its domain is not a known one, or its rest is
/// not what the domain asks for.
pub open spec fn resolved(url: Seq<char>) -> Option<AddonView> {
    match (captured(ADDRESS@, url, "domain"@), captured(ADDRESS@, url, "rest"@)) {
        (Some(domain), Some(rest)) => addon_at(domain, rest),
        _ => None,
    }
}

/// The add-ons that `urls` speak of, in their order, without the addresses
/// that speak of none.
pub open spec fn resolved_all(urls: Seq<Seq<char>>) -> Seq<AddonView>
    decreases urls.len(),
{
    if urls.len() == 0 {
        Seq::empty()
    } else {
        let before = resolved_all(urls.drop_last());
        match resolved(urls.last()) {
            Some(addon) => before.push(addon),
            None => before,
        }
    }
}

/// A GitHub address whose rest holds a project resolves to that project: to
/// its latest release where the rest holds no branch, else to the branch.
pub proof fn github_addresses(url: Seq<char>, rest: Seq<char>, project: Seq<char>)
    requires
        captured(ADDRESS@, url, "domain"@) == Some("github"@),
        captured(ADDRESS@, url, "rest"@) == Some(rest),
        captured(GITHUB@, rest, "project"@) == Some(project),
    ensures
        match captured(GITHUB@, rest, "branch"@) {
            Some(branch) => resolved(url) == Some(
                fresh(project, AddonKindView::GithubRepo { branch }),
            ),
            None => resolved(url) == Some(fresh(project, AddonKindView::GithubRelease)),
        },
{
}

/// An address without a domain, or with one that is not known, resolves to
/// no add-on.
pub proof fn unknown_domains(url: Seq<char>)
    requires
        match captured(ADDRESS@, url, "domain"@) {
            Some(domain) => !is_known_domain(domain),
            None => true,
        },
    ensures
        resolved(url) is None,
{
}

/// The add-on of a GitHub address whose rest holds `project` and `branch`:
/// the branch where there is one, else the latest release.
pub fn github_addon(project: Option<String>, branch: Option<String>) -> (r: Option<Addon>)
    ensures
        match r {
            Some(addon) => github(text_view(project), text_view(branch)) == Some(addon@),
            None => github(text_view(project), text_view(branch)) is None,
        },
{
    match project {
        Some(project) => match branch {
            Some(branch) => Some(Addon::new(project, AddonKind::GithubRepo { branch })),
            None => Some(Addon::new(project, AddonKind::GithubRelease)),
        },
        None => None,
    }
}

/// The add-on of a Tukui address whose rest holds `kind` and `project`: a
/// main interface for `download`, a catalogue entry for `addons`.
pub fn tukui_addon(kind: Option<String>, project: Option<String>) -> (r: Option<Addon>)
    ensures
        match r {
            Some(addon) => tukui(text_view(kind), text_view(project)) == Some(addon@),
            None => tukui(text_view(kind), text_view(project)) is None,
        },
{
    match (kind, project) {
        (Some(kind), Some(project)) => if same(kind.as_str(), "download") {
            Some(Addon::new(project, AddonKind::TukuiMain))
        } else if same(kind.as_str(), "addons") {
            Some(Addon::new(project, AddonKind::TukuiAddon))
        } else {
            None
        },
        _ => None,
    }
}

/// The add-on of a WoWInterface address whose rest holds `project`.
pub fn wowinterface_addon(project: Option<String>) -> (r: Option<Addon>)
    ensures
        match r {
            Some(addon) => wowinterface(text_view(project)) == Some(addon@),
            None => wowinterface(text_view(project)) is None,
        },
{
    match project {
        Some(project) => Some(Addon::new(project, AddonKind::WowInt)),
        None => None,
    }
}

/// The add-on at `rest` of the domain `domain`.
pub fn addon_in_domain(domain: &str, rest: &str) -> (r: Option<Addon>)
    ensures
        match r {
            Some(addon) => addon_at(domain@, rest@) == Some(addon@),
            None => addon_at(domain@, rest@) is None,
        },
        !is_known_domain(domain@) ==> r is None,
{
    if same(domain, "github") {
        github_addon(capture(GITHUB, rest, "project"), capture(GITHUB, rest, "branch"))
    } else if same(domain, "gitlab") {
        Some(Addon::new(rest.to_owned(), AddonKind::Gitlab))
    } else if same(domain, "tukui") {
        tukui_addon(capture(TUKUI, rest, "kind"), capture(TUKUI, rest, "project"))
    } else if same(domain, "wowinterface") {
        wowinterface_addon(capture(WOWINTERFACE, rest, "project"))
    } else {
        None
    }
}

/// The add-on that the address `url` speaks of. An address that is not
/// recognised gives none.
pub fn addon_from_url(url: &str) -> (r: Option<Addon>)
    ensures
        match r {
            Some(addon) => resolved(url@) == Some(addon@),
            None => resolved(url@) is None,
        },
        match captured(ADDRESS@, url@, "domain"@) {
            Some(domain) => !is_known_domain(domain) ==> r is None,
            None => r is None,
        },
{
    match (capture(ADDRESS, url, "domain"), capture(ADDRESS, url, "rest")) {
        (Some(domain), Some(rest)) => addon_in_domain(domain.as_str(), rest.as_str()),
        _ => None,
    }
}

/// The add-ons that `urls` speak of, in their order. An address that is not
/// recognised is left out.
pub fn addons_from_urls(urls: &Vec<String>) -> (r: Vec<Addon>)
    ensures
        addon_views(r@) == resolved_all(names_view(urls@)),
{
    let ghost all = names_view(urls@);
    let mut out: Vec<Addon> = Vec::new();
    let mut i: usize = 0;
    assert(addon_views(out@) =~= resolved_all(all.take(0)));
    while i < urls.len()
        invariant
            i <= urls.len(),
            all == names_view(urls@),
            addon_views(out@) == resolved_all(all.take(i as int)),
        decreases urls.len() - i,
    {
        proof {
            assert(all.take(i + 1).drop_last() =~= all.take(i as int));
            assert(all.take(i + 1).last() == urls@[i as int]@);
        }
        let ghost before = addon_views(out@);
        match addon_from_url(urls[i].as_str()) {
            Some(addon) => {
                out.push(addon);
                assert(addon_views(out@) =~= before.push(addon@));
            },
            None => {},
        }
        i += 1;
    }
    assert(all.take(urls.len() as int) =~= all);
    out
}

} // verus!
