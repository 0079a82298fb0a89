//! What unpacking an archive does with each of its entries.

use vstd::prelude::*;
use vstd::string::*;
use crate::text::chars_of;

verus! {

/// An entry of an archive.
#[derive(Debug, PartialEq, Eq)]
pub struct Entry {
    /// The name that the archive gives the entry.
    pub name: String,
    /// The path of the entry below the directory it is unpacked into, made
    /// safe: relative, and never leading out of that directory.
    pub path: String,
}

/// What to do with an entry of an archive.
#[derive(Debug, PartialEq, Eq)]
pub enum Unpack {
    /// Create the directory `path`, and those above it.
    Directory { path: String },
    /// Write the content of the entry at `index` to the file `path`, in a
    /// directory that is created where it is missing.
    File { index: usize, path: String },
}

/// What an [`Unpack`] stands for.
pub enum UnpackView {
    Directory { path: Seq<char> },
    File { index: usize, path: Seq<char> },
}

impl View for Unpack {
    type V = UnpackView;

    open spec fn view(&self) -> UnpackView {
        match self {
            Unpack::Directory { path } => UnpackView::Directory { path: path@ },
            Unpack::File { index, path } => UnpackView::File { index: *index, path: path@ },
        }
    }
}

/// What each of `steps` stands for.
pub open spec fn unpack_views(steps: Seq<Unpack>) -> Seq<UnpackView> {
    Seq::new(steps.len(), |i: int| steps[i]@)
}

/// What to do with the entry at `index`: nothing where its path is empty, a
/// directory where its name ends in a slash, else a file.
pub open spec fn unpacking(entry: Entry, index: int) -> Option<UnpackView> {
    if entry.path@.len() == 0 {
        None
    } else if entry.name@.len() > 0 && entry.name@.last() == '/' {
        Some(UnpackView::Directory { path: entry.path@ })
    } else {
        Some(UnpackView::File { index: index as usize, path: entry.path@ })
    }
}

/// What to do with the first `count` of `entries`, in their order.
pub open spec fn unpacked(entries: Seq<Entry>, count: int) -> Seq<UnpackView>
    decreases count,
{
    if count <= 0 {
        Seq::empty()
    } else {
        let before = unpacked(entries, count - 1);
        match unpacking(entries[count - 1], count - 1) {
            Some(step) => before.push(step),
            None => before,
        }
    }
}

/// What unpacking does with the entries of an archive, one by one in their
/// order: an entry without a path is passed over, one whose name ends in a
/// slash becomes a directory, any other a file.
pub fn extract(entries: &Vec<Entry>) -> (r: Vec<Unpack>)
    ensures
        unpack_views(r@) == unpacked(entries@, entries@.len() as int),
{
    let mut steps: Vec<Unpack> = Vec::new();
    let mut i: usize = 0;
    assert(unpack_views(steps@) =~= unpacked(entries@, 0));
    while i < entries.len()
        invariant
            i <= entries.len(),
            unpack_views(steps@) == unpacked(entries@, i as int),
        decreases entries.len() - i,
    {
        let ghost before = unpack_views(steps@);
        let entry = &entries[i];
        if !entry.path.as_str().is_empty() {
            let name = chars_of(entry.name.as_str());
            if name.len() > 0 && name[name.len() - 1] == '/' {
                steps.push(Unpack::Directory { path: entry.path.clone() });
            } else {
                steps.push(Unpack::File { index: i, path: entry.path.clone() });
            }
            assert(unpack_views(steps@) =~= before.push(unpacking(entries@[i as int], i as int)->0));
        }
        i += 1;
    }
    steps
}

} // verus!
