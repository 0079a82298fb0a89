//! The installation of one add-on: the name of its archive, and the steps on
//! the file system that put its directories in the place of the old ones.

use vstd::prelude::*;
use vstd::string::*;
use crate::addon::{addon_views, first_of_project, Addon, AddonView};
use crate::config::Config;
use crate::discover::{Discovery, DiscoveryView};
use crate::failure::Failure;
use crate::text::{
    after_last, copy_names, file_stem, last_segment, names_view, stem, text_view, unquote,
    unquoted,
};

verus! {

/// One step on the file system.
#[derive(Debug, PartialEq, Eq)]
pub enum Step {
    /// Delete the directory `dir` of the install root `root`, with all that
    /// is in it.
    Remove { root: String, dir: String },
    /// Give the directory `from`, which the unpacked archive holds under
    /// `parent`, the name `to`.
    Rename { parent: Vec<String>, from: String, to: String },
    /// Move the directory `dir`, which the unpacked archive holds under
    /// `parent`, into the install root `root`.
    Move { parent: Vec<String>, dir: String, root: String },
}

/// What a [`Step`] stands for.
pub enum StepView {
    Remove { root: Seq<char>, dir: Seq<char> },
    Rename { parent: Seq<Seq<char>>, from: Seq<char>, to: Seq<char> },
    Move { parent: Seq<Seq<char>>, dir: Seq<char>, root: Seq<char> },
}

impl View for Step {
    type V = StepView;

    open spec fn view(&self) -> StepView {
        match self {
            Step::Remove { root, dir } => StepView::Remove { root: root@, dir: dir@ },
            Step::Rename { parent, from, to } => StepView::Rename {
                parent: names_view(parent@),
                from: from@,
                to: to@,
            },
            Step::Move { parent, dir, root } => StepView::Move {
                parent: names_view(parent@),
                dir: dir@,
                root: root@,
            },
        }
    }
}

/// What each of `steps` stands for.
pub open spec fn step_views(steps: Seq<Step>) -> Seq<StepView> {
    Seq::new(steps.len(), |i: int| steps[i]@)
}

/// The name of a download: from the text
/// after the last `=` of the header that tells the disposition of the
/// content, without the quotation marks around it; without such a header,
/// the last segment of the address.
pub open spec fn download_name(header: Option<Seq<char>>, url: Option<Seq<char>>) -> Option<
    Seq<char>,
> {
    match header {
        Some(header) => Some(unquoted(after_last(header, '='))),
        None => match url {
            Some(url) => Some(after_last(url, '/')),
            None => None,
        },
    }
}

/// The name of the file that a download named `name` is kept in: `name`
/// with the extension `zip` in the place of its own.
pub open spec fn kept_name(name: Seq<char>) -> Seq<char> {
    stem(name) + ".zip"@
}

/// The directories that `replaced` has under the install root.
pub open spec fn old_dirs(replaced: Option<AddonView>) -> Seq<Seq<char>> {
    match replaced {
        Some(AddonView { dirs: Some(dirs), .. }) => dirs,
        _ => Seq::empty(),
    }
}

/// One removal from `root` for each of `dirs`.
pub open spec fn removals(root: Seq<char>, dirs: Seq<Seq<char>>) -> Seq<StepView> {
    Seq::new(dirs.len(), |i: int| StepView::Remove { root, dir: dirs[i] })
}

/// One move into `root` for each of `dirs` under `parent`.
pub open spec fn moves(parent: Seq<Seq<char>>, dirs: Seq<Seq<char>>, root: Seq<char>) -> Seq<
    StepView,
> {
    Seq::new(dirs.len(), |i: int| StepView::Move { parent, dir: dirs[i], root })
}

/// The steps that install what was found into `root` in the place of
/// `replaced`: the directories of the old entry are removed, the directory of
/// the manifest gets its name, and the directories found are moved in.
pub open spec fn install_steps(
    root: Seq<char>,
    replaced: Option<AddonView>,
    found: DiscoveryView,
) -> Seq<StepView> {
    removals(root, old_dirs(replaced)) + seq![
        StepView::Rename { parent: found.parent, from: found.found, to: found.renamed },
    ] + moves(found.parent, found.dirs, root)
}

/// The add-on once it is installed in the place of `replaced`: with the
/// number of the old entry where there is one, and with the directories found.
pub open spec fn installed(
    addon: AddonView,
    replaced: Option<AddonView>,
    found: DiscoveryView,
) -> AddonView {
    AddonView {
        id: match replaced {
            Some(entry) => entry.id,
            None => addon.id,
        },
        dirs: Some(found.dirs),
        ..addon
    }
}

impl Addon {
    /// Names the archive of the download after `content_disposition`, the
    /// header of that name in the answer, or after the download address
    /// where the answer has no such header. An add-on without either is
    /// refused and stays unchanged.
    pub fn set_filename(&mut self, content_disposition: Option<&str>) -> (r: Result<(), Failure>)
        ensures
            match download_name(
                match content_disposition {
                    Some(header) => Some(header@),
                    None => None,
                },
                old(self)@.download_url,
            ) {
                Some(name) => {
                    &&& r is Ok
                    &&& final(self)@ == (AddonView { filename: Some(name), ..old(self)@ })
                },
                None => {
                    &&& r == Err::<(), Failure>(Failure::UnexpectedMetadataShape)
                    &&& final(self)@ == old(self)@
                },
            },
    {
        let name: Option<String> = match content_disposition {
            Some(header) => Some(unquote(last_segment(header, '=').as_str())),
            None => match &self.download_url {
                Some(url) => Some(last_segment(url.as_str(), '/')),
                None => None,
            },
        };
        match name {
            Some(name) => {
                self.filename = Some(name);
                Ok(())
            },
            None => Err(Failure::UnexpectedMetadataShape),
        }
    }

    /// The name of the file that the downloaded archive is kept in: the name
    /// of the download, with the extension `zip` in the place of its own.
    pub fn archive_name(&self) -> (r: Option<String>)
        ensures
            match r {
                Some(name) => self@.filename matches Some(download) && name@ == kept_name(
                    download,
                ),
                None => self@.filename is None,
            },
    {
        match &self.filename {
            Some(download) => {
                let mut name = file_stem(download.as_str());
                name.append(".zip");
                Some(name)
            },
            None => None,
        }
    }

    /// The name of the directory that the archive is unpacked into: the name
    /// of the download without its extension.
    pub fn unpacked_name(&self) -> (r: Option<String>)
        ensures
            match r {
                Some(name) => self@.filename matches Some(download) && name@ == stem(download),
                None => self@.filename is None,
            },
    {
        match &self.filename {
            Some(download) => Some(file_stem(download.as_str())),
            None => None,
        }
    }

    /// Installs what was found in the unpacked archive. Where the registry
    /// has an entry of the same project, the add-on takes its number, and
    /// the directories of that entry are removed before the new ones are
    /// moved in. The add-on records the directories it now has; the steps to
    /// take on the file system are returned in their order.
    pub fn install(&mut self, config: &Config, installed_addons: &Vec<Addon>, found: &Discovery) -> (r:
        Vec<Step>)
        ensures
            final(self)@ == installed(
                old(self)@,
                first_of_project(addon_views(installed_addons@), old(self)@.project),
                found@,
            ),
            step_views(r@) == install_steps(
                config.addon_dir@,
                first_of_project(addon_views(installed_addons@), old(self)@.project),
                found@,
            ),
    {
        let ghost replaced = first_of_project(addon_views(installed_addons@), self@.project);
        let ghost root = config.addon_dir@;
        let mut steps: Vec<Step> = Vec::new();
        match self.get_installed(installed_addons) {
            Some(entry) => {
                self.id = entry.id;
                match entry.dirs {
                    Some(dirs) => {
                        let mut i: usize = 0;
                        while i < dirs.len()
                            invariant
                                i <= dirs.len(),
                                root == config.addon_dir@,
                                steps@.len() == i,
                                forall|j: int|
                                    0 <= j < i ==> steps@[j]@ == (StepView::Remove {
                                        root,
                                        dir: dirs@[j]@,
                                    }),
                            decreases dirs.len() - i,
                        {
                            steps.push(
                                Step::Remove {
                                    root: config.addon_dir.clone(),
                                    dir: dirs[i].clone(),
                                },
                            );
                            i += 1;
                        }
                        assert(step_views(steps@) =~= removals(root, names_view(dirs@)));
                    },
                    None => {
                        assert(step_views(steps@) =~= removals(root, Seq::empty()));
                    },
                }
            },
            None => {
                assert(step_views(steps@) =~= removals(root, Seq::empty()));
            },
        }
        assert(step_views(steps@) == removals(root, old_dirs(replaced)));
        let ghost removed = step_views(steps@);
        steps.push(
            Step::Rename {
                parent: copy_names(&found.parent),
                from: found.found.clone(),
                to: found.renamed.clone(),
            },
        );
        let ghost renamed = removed.push(
            StepView::Rename { parent: found@.parent, from: found@.found, to: found@.renamed },
        );
        assert(step_views(steps@) =~= renamed);
        let mut i: usize = 0;
        while i < found.dirs.len()
            invariant
                i <= found.dirs.len(),
                root == config.addon_dir@,
                steps@.len() == renamed.len() + i,
                forall|j: int| 0 <= j < renamed.len() ==> steps@[j]@ == renamed[j],
                forall|j: int|
                    0 <= j < i ==> steps@[renamed.len() + j]@ == (StepView::Move {
                        parent: found@.parent,
                        dir: found.dirs@[j]@,
                        root,
                    }),
            decreases found.dirs.len() - i,
        {
            steps.push(
                Step::Move {
                    parent: copy_names(&found.parent),
                    dir: found.dirs[i].clone(),
                    root: config.addon_dir.clone(),
                },
            );
            i += 1;
        }
        assert(step_views(steps@) =~= renamed + moves(found@.parent, found@.dirs, root));
        self.dirs = Some(copy_names(&found.dirs));
        steps
    }
}

/// An add-on that is installed in the place of an entry of the registry has
/// the number of that entry, and is otherwise what it was but for its
/// directories.
pub proof fn replacement_keeps_the_number(
    addon: AddonView,
    registry: Seq<AddonView>,
    found: DiscoveryView,
)
    requires
        first_of_project(registry, addon.project) is Some,
    ensures
        installed(addon, first_of_project(registry, addon.project), found).id == first_of_project(
            registry,
            addon.project,
        )->0.id,
        installed(addon, first_of_project(registry, addon.project), found).dirs == Some(
            found.dirs,
        ),
        installed(addon, first_of_project(registry, addon.project), found).project
            == addon.project,
{
}

/// In the steps of an installation every removal of an old directory comes
/// before every move of a new one, each old directory is removed, and each
/// directory found is moved in.
pub proof fn old_dirs_go_first(root: Seq<char>, replaced: Option<AddonView>, found: DiscoveryView)
    ensures
        forall|i: int, j: int|
            #![trigger install_steps(root, replaced, found)[i], install_steps(root, replaced, found)[j]]
            0 <= i < install_steps(root, replaced, found).len() && 0 <= j < install_steps(
                root,
                replaced,
                found,
            ).len() && install_steps(root, replaced, found)[i] is Remove && install_steps(
                root,
                replaced,
                found,
            )[j] is Move ==> i < j,
        forall|k: int|
            0 <= k < old_dirs(replaced).len() ==> install_steps(root, replaced, found)[k] == (
            StepView::Remove { root, dir: #[trigger] old_dirs(replaced)[k] }),
        forall|k: int|
            0 <= k < found.dirs.len() ==> install_steps(root, replaced, found)[old_dirs(
                replaced,
            ).len() + 1 + k] == (StepView::Move {
                parent: found.parent,
                dir: #[trigger] found.dirs[k],
                root,
            }),
{
}

} // verus!
