//! The add-on descriptor: which project it is, where it comes from, and what
//! is known of its latest release and of its installation.

use vstd::prelude::*;
use vstd::string::*;
use crate::text::{copy_names, copy_text, names_view, replace, replaced, text_view};

verus! {

/// The hosting source of an add-on: what its metadata address is made from
/// and how the answer is read.
#[derive(Debug, PartialEq, Eq)]
pub enum AddonKind {
    /// The latest release of a GitHub repository.
    GithubRelease,
    /// The head of a branch of a GitHub repository.
    GithubRepo { branch: String },
    /// One of the main interfaces of the Tukui catalogue.
    TukuiMain,
    /// An entry of the Tukui add-on catalogue.
    TukuiAddon,
    /// The releases of a GitLab project.
    Gitlab,
    /// A file of the WoWInterface directory.
    WowInt,
}

/// What an [`AddonKind`] stands for.
pub enum AddonKindView {
    GithubRelease,
    GithubRepo { branch: Seq<char> },
    TukuiMain,
    TukuiAddon,
    Gitlab,
    WowInt,
}

impl View for AddonKind {
    type V = AddonKindView;

    open spec fn view(&self) -> AddonKindView {
        match self {
            AddonKind::GithubRelease => AddonKindView::GithubRelease,
            AddonKind::GithubRepo { branch } => AddonKindView::GithubRepo { branch: branch@ },
            AddonKind::TukuiMain => AddonKindView::TukuiMain,
            AddonKind::TukuiAddon => AddonKindView::TukuiAddon,
            AddonKind::Gitlab => AddonKindView::Gitlab,
            AddonKind::WowInt => AddonKindView::WowInt,
        }
    }
}

impl Clone for AddonKind {
    fn clone(&self) -> (r: Self)
        ensures
            r@ == self@,
    {
        match self {
            AddonKind::GithubRelease => AddonKind::GithubRelease,
            AddonKind::GithubRepo { branch } => AddonKind::GithubRepo { branch: branch.clone() },
            AddonKind::TukuiMain => AddonKind::TukuiMain,
            AddonKind::TukuiAddon => AddonKind::TukuiAddon,
            AddonKind::Gitlab => AddonKind::Gitlab,
            AddonKind::WowInt => AddonKind::WowInt,
        }
    }
}

/// An add-on. Two descriptors speak of the same add-on where their projects
/// are the same, whatever their versions.
#[derive(Debug)]
pub struct Addon {
    /// The key of the project at its source.
    pub project: String,
    pub version: Option<String>,
    pub name: Option<String>,
    pub kind: AddonKind,
    /// The number of the add-on in the registry; 0 until it has one.
    pub id: u32,
    /// The directories of the add-on under the install root.
    pub dirs: Option<Vec<String>>,
    /// Where the latest release is downloaded from. Never persisted.
    pub download_url: Option<String>,
    /// The name of the downloaded archive. Never persisted.
    pub filename: Option<String>,
}

/// What an [`Addon`] stands for.
pub struct AddonView {
    pub project: Seq<char>,
    pub version: Option<Seq<char>>,
    pub name: Option<Seq<char>>,
    pub kind: AddonKindView,
    pub id: u32,
    pub dirs: Option<Seq<Seq<char>>>,
    pub download_url: Option<Seq<char>>,
    pub filename: Option<Seq<char>>,
}

impl View for Addon {
    type V = AddonView;

    open spec fn view(&self) -> AddonView {
        AddonView {
            project: self.project@,
            version: text_view(self.version),
            name: text_view(self.name),
            kind: self.kind@,
            id: self.id,
            dirs: match self.dirs {
                Some(dirs) => Some(names_view(dirs@)),
                None => None,
            },
            download_url: text_view(self.download_url),
            filename: text_view(self.filename),
        }
    }
}

impl Clone for Addon {
    fn clone(&self) -> (r: Self)
        ensures
            r@ == self@,
    {
        Addon {
            project: self.project.clone(),
            version: copy_text(&self.version),
            name: copy_text(&self.name),
            kind: self.kind.clone(),
            id: self.id,
            dirs: match &self.dirs {
                Some(dirs) => Some(copy_names(dirs)),
                None => None,
            },
            download_url: copy_text(&self.download_url),
            filename: copy_text(&self.filename),
        }
    }
}

/// What each of `addons` stands for.
pub open spec fn addon_views(addons: Seq<Addon>) -> Seq<AddonView> {
    Seq::new(addons.len(), |i: int| addons[i]@)
}

/// A descriptor fresh from its address: project and source, nothing else.
pub open spec fn fresh(project: Seq<char>, kind: AddonKindView) -> AddonView {
    AddonView {
        project,
        version: None,
        name: None,
        kind,
        id: 0,
        dirs: None,
        download_url: None,
        filename: None,
    }
}

/// The address that answers with the metadata of the latest release.
pub open spec fn metadata_address(kind: AddonKindView, project: Seq<char>) -> Seq<char> {
    match kind {
        AddonKindView::GithubRelease => "https://api.github.com/repos/"@ + project
            + "/releases/latest"@,
        AddonKindView::GithubRepo { branch } => "https://api.github.com/repos/"@ + project
            + "/commits/"@ + branch,
        AddonKindView::TukuiMain => "https://www.tukui.org/api.php?ui="@ + project,
        AddonKindView::TukuiAddon => "https://www.tukui.org/api.php?addons"@,
        AddonKindView::Gitlab => "https://gitlab.com/api/v4/projects/"@ + replaced(
            project,
            '/',
            "%2F"@,
        ) + "/releases"@,
        AddonKindView::WowInt => "https://api.mmoui.com/v3/game/WOW/filedetails/"@ + project
            + ".json"@,
    }
}

/// The first of `registry` whose project is `project`.
pub open spec fn first_of_project(registry: Seq<AddonView>, project: Seq<char>) -> Option<
    AddonView,
>
    decreases registry.len(),
{
    if registry.len() == 0 {
        None
    } else if registry.first().project == project {
        Some(registry.first())
    } else {
        first_of_project(registry.drop_first(), project)
    }
}

impl Addon {
    /// A descriptor of `project` at the source `kind`, with no id yet.
    pub fn new(project: String, kind: AddonKind) -> (r: Self)
        ensures
            r@ == fresh(project@, kind@),
    {
        Self {
            project: project,
            id: 0,
            name: None,
            version: None,
            dirs: None,
            kind: kind,
            download_url: None,
            filename: None,
        }
    }

    /// The address to ask for the metadata of the latest release.
    pub fn latest_url(&self) -> (r: String)
        ensures
            r@ == metadata_address(self@.kind, self@.project),
    {
        match &self.kind {
            AddonKind::GithubRelease => {
                let mut r = String::from_str("https://api.github.com/repos/");
                r.append(self.project.as_str());
                r.append("/releases/latest");
                r
            },
            AddonKind::GithubRepo { branch } => {
                let mut r = String::from_str("https://api.github.com/repos/");
                r.append(self.project.as_str());
                r.append("/commits/");
                r.append(branch.as_str());
                r
            },
            AddonKind::TukuiMain => {
                let mut r = String::from_str("https://www.tukui.org/api.php?ui=");
                r.append(self.project.as_str());
                r
            },
            AddonKind::TukuiAddon => String::from_str("https://www.tukui.org/api.php?addons"),
            AddonKind::Gitlab => {
                let mut r = String::from_str("https://gitlab.com/api/v4/projects/");
                r.append(replace(self.project.as_str(), '/', "%2F").as_str());
                r.append("/releases");
                r
            },
            AddonKind::WowInt => {
                let mut r = String::from_str("https://api.mmoui.com/v3/game/WOW/filedetails/");
                r.append(self.project.as_str());
                r.append(".json");
                r
            },
        }
    }

    /// The entry of the registry that speaks of this add-on: the first one
    /// with its project.
    pub fn get_installed(&self, installed_addons: &Vec<Addon>) -> (r: Option<Addon>)
        ensures
            match r {
                Some(a) => first_of_project(addon_views(installed_addons@), self@.project)
                    == Some(a@),
                None => first_of_project(addon_views(installed_addons@), self@.project) is None,
            },
    {
        let ghost all = addon_views(installed_addons@);
        let mut i: usize = 0;
        assert(all.skip(0) =~= all);
        while i < installed_addons.len()
            invariant
                i <= installed_addons.len(),
                all == addon_views(installed_addons@),
                first_of_project(all, self@.project) == first_of_project(
                    all.skip(i as int),
                    self@.project,
                ),
            decreases installed_addons.len() - i,
        {
            proof {
                assert(all.skip(i as int).drop_first() =~= all.skip(i + 1));
                assert(all.skip(i as int).first() == all[i as int]);
            }
            if installed_addons[i].project == self.project {
                return Some(installed_addons[i].clone());
            }
            i += 1;
        }
        None
    }
}

} // verus!
