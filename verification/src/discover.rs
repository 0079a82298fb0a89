//! Which directories of an unpacked archive are the add-on: the search for
//! the manifest, and the name that the manifest gives its directory.

use vstd::prelude::*;
use vstd::string::*;
use crate::failure::Failure;
use crate::pattern::{capture, captured};
use crate::text::{extension, file_extension, file_stem, names_view, same, stem};

verus! {

/// The stem of a manifest: a `head`, and after it nothing or the mark of a
/// game version.
pub const MANIFEST: &'static str =
    "(?P<head>.+?)(?:$|[-_](?i:mainline|wrath|tbc|vanilla|wotlkc?|bcc|classic))";

/// A directory of an unpacked archive: its name, the names of its files, and
/// its subdirectories, both in the order of the listing.
#[derive(Debug, PartialEq, Eq)]
pub struct Directory {
    pub name: String,
    pub files: Vec<String>,
    pub subdirs: Vec<Directory>,
}

/// What a [`Directory`] stands for.
pub struct DirectoryView {
    pub name: Seq<char>,
    pub files: Seq<Seq<char>>,
    pub subdirs: Seq<DirectoryView>,
}

impl View for Directory {
    type V = DirectoryView;

    open spec fn view(&self) -> DirectoryView
        decreases self,
    {
        DirectoryView {
            name: self.name@,
            files: names_view(self.files@),
            subdirs: Seq::new(
                self.subdirs@.len(),
                |i: int|
                    if 0 <= i < self.subdirs@.len() {
                        self.subdirs@[i].view()
                    } else {
                        DirectoryView { name: Seq::empty(), files: Seq::empty(), subdirs: Seq::empty() }
                    },
            ),
        }
    }
}

/// What each of `dirs` stands for.
pub open spec fn directory_views(dirs: Seq<Directory>) -> Seq<DirectoryView> {
    Seq::new(dirs.len(), |i: int| dirs[i]@)
}

/// The subdirectories of a directory stand for what each of them stands for.
pub proof fn subdirs_view(dir: Directory)
    ensures
        dir@.subdirs == directory_views(dir.subdirs@),
{
    let subdirs = Seq::new(
        dir.subdirs@.len(),
        |i: int|
            if 0 <= i < dir.subdirs@.len() {
                dir.subdirs@[i].view()
            } else {
                DirectoryView { name: Seq::empty(), files: Seq::empty(), subdirs: Seq::empty() }
            },
    );
    assert(subdirs =~= directory_views(dir.subdirs@));
    assert(dir@.subdirs =~= subdirs);
}

/// What was found in an unpacked archive, and what is to be done with it.
#[derive(Debug, PartialEq, Eq)]
pub struct Discovery {
    /// The way to the directory that holds the directory of the manifest:
    /// the names from the root of the archive down. Empty where the root
    /// itself holds the manifest.
    pub parent: Vec<String>,
    /// The name of the directory that holds the manifest.
    pub found: String,
    /// The name that this directory is given, in place.
    pub renamed: String,
    /// The directories to install, by the names they have under `parent`
    /// after the renaming.
    pub dirs: Vec<String>,
}

/// What a [`Discovery`] stands for.
pub struct DiscoveryView {
    pub parent: Seq<Seq<char>>,
    pub found: Seq<char>,
    pub renamed: Seq<char>,
    pub dirs: Seq<Seq<char>>,
}

impl View for Discovery {
    type V = DiscoveryView;

    open spec fn view(&self) -> DiscoveryView {
        DiscoveryView {
            parent: names_view(self.parent@),
            found: self.found@,
            renamed: self.renamed@,
            dirs: names_view(self.dirs@),
        }
    }
}

/// A manifest is a file with the extension `toc`.
pub open spec fn is_manifest(file: Seq<char>) -> bool {
    extension(file) == Some("toc"@)
}

/// The name that the manifest `file` gives its directory: the head of its
/// stem, or the stem where [`MANIFEST`] finds no head in it.
pub open spec fn head_of(file: Seq<char>) -> Seq<char> {
    match captured(MANIFEST@, stem(file), "head"@) {
        Some(head) => head,
        None => stem(file),
    }
}

/// The first manifest among `files`.
pub open spec fn first_manifest(files: Seq<Seq<char>>) -> Option<Seq<char>>
    decreases files.len(),
{
    if files.len() == 0 {
        None
    } else if is_manifest(files.first()) {
        Some(files.first())
    } else {
        first_manifest(files.drop_first())
    }
}

/// The names of `dirs`, one by one.
pub open spec fn names_of(dirs: Seq<DirectoryView>) -> Seq<Seq<char>> {
    Seq::new(dirs.len(), |i: int| dirs[i].name)
}

/// The directories to install once the manifest is found: the directory of
/// the manifest alone, under its new name `head`, where it is the root;
/// else all of `siblings`, the first of them under the new name.
pub open spec fn chosen(head: Seq<char>, siblings: Option<Seq<Seq<char>>>) -> Seq<Seq<char>> {
    match siblings {
        Some(names) => if names.len() > 0 {
            names.update(0, head)
        } else {
            names
        },
        None => seq![head],
    }
}

/// The search from `dir` on, reached by way of `parent`, with `siblings` the
/// subdirectories of the directory above (none for the root): the manifest
/// of `dir` decides; where it has none, the search goes on in its first
/// subdirectory, and fails where it has none.
pub open spec fn discovered(
    dir: DirectoryView,
    parent: Seq<Seq<char>>,
    siblings: Option<Seq<Seq<char>>>,
) -> Option<DiscoveryView>
    decreases dir,
{
    match first_manifest(dir.files) {
        Some(file) => Some(
            DiscoveryView {
                parent,
                found: dir.name,
                renamed: head_of(file),
                dirs: chosen(head_of(file), siblings),
            },
        ),
        None => if dir.subdirs.len() > 0 {
            discovered(dir.subdirs[0], parent.push(dir.name), Some(names_of(dir.subdirs)))
        } else {
            None
        },
    }
}

/// How many times the search can go down from `dir`.
pub open spec fn descents(dir: DirectoryView) -> nat
    decreases dir,
{
    if dir.subdirs.len() > 0 {
        1 + descents(dir.subdirs[0])
    } else {
        0
    }
}

/// Whether `file` is a manifest.
pub fn manifest(file: &str) -> (r: bool)
    ensures
        r == is_manifest(file@),
{
    match file_extension(file) {
        Some(e) => same(e.as_str(), "toc"),
        None => false,
    }
}

/// The name of a manifest's directory, given what [`MANIFEST`] found to be
/// the head of the stem of `file`.
pub fn head_or_stem(head: Option<String>, file: &str) -> (r: String)
    ensures
        r@ == match head {
            Some(h) => h@,
            None => stem(file@),
        },
{
    match head {
        Some(h) => h,
        None => file_stem(file),
    }
}

/// The name that the first manifest among the files of `dir` gives the
/// directory; none where no file of it is a manifest.
pub fn process_tocs(dir: &Directory) -> (r: Option<String>)
    ensures
        match r {
            Some(head) => first_manifest(dir@.files) matches Some(file) && head@ == head_of(file),
            None => first_manifest(dir@.files) is None,
        },
{
    let ghost files = dir@.files;
    let mut i: usize = 0;
    assert(files.skip(0) =~= files);
    while i < dir.files.len()
        invariant
            i <= dir.files.len(),
            files == names_view(dir.files@),
            first_manifest(files) == first_manifest(files.skip(i as int)),
        decreases dir.files.len() - i,
    {
        proof {
            assert(files.skip(i as int).drop_first() =~= files.skip(i + 1));
            assert(files.skip(i as int).first() == files[i as int]);
        }
        let file = dir.files[i].as_str();
        if manifest(file) {
            let whole = file_stem(file);
            return Some(head_or_stem(capture(MANIFEST, whole.as_str(), "head"), file));
        }
        i += 1;
    }
    None
}

/// The names of the subdirectories of `dir`.
pub fn get_subdirs(dir: &Directory) -> (r: Vec<String>)
    ensures
        names_view(r@) == names_of(dir@.subdirs),
{
    let mut names: Vec<String> = Vec::new();
    let mut i: usize = 0;
    proof {
        subdirs_view(*dir);
    }
    while i < dir.subdirs.len()
        invariant
            i <= dir.subdirs.len(),
            names@.len() == i,
            forall|j: int| 0 <= j < i ==> names@[j]@ == dir.subdirs@[j].name@,
        decreases dir.subdirs.len() - i,
    {
        names.push(dir.subdirs[i].name.clone());
        i += 1;
    }
    assert(names_view(names@) =~= names_of(dir@.subdirs));
    names
}

/// The directories to install once the manifest is found, `head` being the
/// new name of its directory and `siblings` the subdirectories of the
/// directory above, where there is one.
pub fn choose_dirs(head: &String, siblings: Option<Vec<String>>) -> (r: Vec<String>)
    ensures
        names_view(r@) == chosen(head@, match siblings {
            Some(names) => Some(names_view(names@)),
            None => None,
        }),
{
    match siblings {
        Some(names) => {
            let mut dirs = names;
            let ghost before = names_view(dirs@);
            if dirs.len() > 0 {
                dirs.set(0, head.clone());
                assert(names_view(dirs@) =~= before.update(0, head@));
            }
            dirs
        },
        None => {
            let mut dirs: Vec<String> = Vec::new();
            dirs.push(head.clone());
            assert(names_view(dirs@) =~= seq![head@]);
            dirs
        },
    }
}

/// Searches the unpacked archive `root` for the add-on. The files of the
/// root are looked through for a manifest; where there is none, those of its
/// first subdirectory, and so on down. The directory of the manifest gets the
/// name that the manifest gives it. Where that directory is the root, it
/// alone is to be installed; else all the subdirectories of the directory
/// above it are. An archive in which the search finds no manifest is refused.
pub fn get_addon_dirs(root: &Directory) -> (r: Result<Discovery, Failure>)
    ensures
        match r {
            Ok(found) => discovered(root@, Seq::empty(), None) == Some(found@),
            Err(e) => e == Failure::NoManifestFound && discovered(root@, Seq::empty(), None)
                is None,
        },
{
    let mut current: &Directory = root;
    let mut parent: Vec<String> = Vec::new();
    let mut siblings: Option<Vec<String>> = None;
    assert(names_view(parent@) =~= Seq::<Seq<char>>::empty());
    loop
        invariant
            discovered(
                current@,
                names_view(parent@),
                match siblings {
                    Some(names) => Some(names_view(names@)),
                    None => None,
                },
            ) == discovered(root@, Seq::empty(), None),
        decreases descents(current@),
    {
        match process_tocs(current) {
            Some(head) => {
                let dirs = choose_dirs(&head, siblings);
                return Ok(Discovery { parent, found: current.name.clone(), renamed: head, dirs });
            },
            None => {
                if current.subdirs.len() == 0 {
                    proof {
                        subdirs_view(*current);
                    }
                    return Err(Failure::NoManifestFound);
                }
                let ghost above = names_view(parent@);
                siblings = Some(get_subdirs(current));
                parent.push(current.name.clone());
                proof {
                    subdirs_view(*current);
                    assert(names_view(parent@) =~= above.push(current@.name));
                }
                current = &current.subdirs[0];
            },
        }
    }
}

/// An archive with a manifest among the files of its root gives exactly one
/// directory to install: the root, under the name that the manifest gives it.
pub proof fn manifest_at_the_top(root: DirectoryView)
    requires
        first_manifest(root.files) is Some,
    ensures
        discovered(root, Seq::empty(), None) matches Some(found) && found.dirs == seq![
            head_of(first_manifest(root.files)->0),
        ] && found.found == root.name && found.parent.len() == 0,
{
}

/// An archive whose manifest is found two levels below its root gives all
/// the directories of that level to install, the one of the manifest under
/// the name that the manifest gives it.
pub proof fn manifest_two_levels_down(root: DirectoryView)
    requires
        first_manifest(root.files) is None,
        root.subdirs.len() > 0,
        first_manifest(root.subdirs[0].files) is None,
        root.subdirs[0].subdirs.len() > 0,
        first_manifest(root.subdirs[0].subdirs[0].files) is Some,
    ensures
        discovered(root, Seq::empty(), None) matches Some(found) && {
            let level = root.subdirs[0].subdirs;
            &&& found.parent == seq![root.name, root.subdirs[0].name]
            &&& found.found == level[0].name
            &&& found.renamed == head_of(first_manifest(level[0].files)->0)
            &&& found.dirs.len() == level.len()
            &&& found.dirs[0] == found.renamed
            &&& forall|i: int| 1 <= i < level.len() ==> found.dirs[i] == level[i].name
        },
{
    let first = root.subdirs[0];
    let second = first.subdirs[0];
    let above = Seq::<Seq<char>>::empty().push(root.name);
    assert(discovered(root, Seq::empty(), None) == discovered(
        first,
        above,
        Some(names_of(root.subdirs)),
    ));
    assert(discovered(first, above, Some(names_of(root.subdirs))) == discovered(
        second,
        above.push(first.name),
        Some(names_of(first.subdirs)),
    ));
    assert(above.push(first.name) =~= seq![root.name, first.name]);
}

} // verus!
