//! Paths, the mount that makes a directory a mount point of its own, and the
//! listing of a directory.

use crate::plan::{Mount, MountView};
use crate::text::{chars_of, join2};
use vstd::prelude::*;
use vstd::string::*;

verus! {

/// The path `name` as seen from the directory `base`: `name` itself where it
/// starts at the root, else `base` and `name` with one `/` between them,
/// which `base` may bring along.
pub open spec fn joined(base: Seq<char>, name: Seq<char>) -> Seq<char> {
    if name.len() > 0 && name[0] == '/' {
        name
    } else if base.len() == 0 || base.last() == '/' {
        base + name
    } else {
        base + "/"@ + name
    }
}

/// Joins a path to a directory.
pub fn join_path(base: &str, name: &str) -> (out: String)
    ensures
        out@ == joined(base@, name@),
{
    let base_chars = chars_of(base);
    let name_chars = chars_of(name);
    if name_chars.len() > 0 && name_chars[0] == '/' {
        String::from_str(name)
    } else if base_chars.len() == 0 || base_chars[base_chars.len() - 1] == '/' {
        join2(base, name)
    } else {
        let mut out = join2(base, "/");
        out.append(name);
        out
    }
}

/// The mount that binds `path` onto itself, with all that is mounted below
/// it. The directory is the same as before, but is then a mount point.
pub open spec fn self_bind(path: Seq<char>) -> MountView {
    MountView { source: path, target: path, fstype: "none"@, bind: true, recursive: true }
}

/// The request that makes `path` a mount point of its own: a root directory
/// can only be changed to a mount point.
pub fn bind_mount(path: &str) -> (mount: Mount)
    ensures
        mount@ == self_bind(path@),
{
    Mount {
        source: String::from_str(path),
        target: String::from_str(path),
        fstype: String::from_str("none"),
        bind: true,
        recursive: true,
    }
}

/// What an entry of a directory is.
#[derive(Debug, PartialEq, Eq)]
pub enum EntryKind {
    Directory,
    File,
    /// A symbolic link, with the path it points to.
    Symlink { target: String },
    /// Anything else, with a description of its type.
    Other { description: String },
}

/// One entry of a directory.
#[derive(Debug, PartialEq, Eq)]
pub struct DirEntry {
    pub path: String,
    pub kind: EntryKind,
}

/// The line that lists one entry: a tag for its kind, four spaces and its
/// path; for a symbolic link, an arrow and its target follow.
pub open spec fn entry_line(entry: DirEntry) -> Seq<char> {
    match entry.kind {
        EntryKind::Directory => "d"@ + "    "@ + entry.path@,
        EntryKind::File => "f"@ + "    "@ + entry.path@,
        EntryKind::Symlink { target } => "L"@ + "    "@ + entry.path@ + " -> "@ + target@,
        EntryKind::Other { description } => description@ + "    "@ + entry.path@,
    }
}

/// The listing of a directory: a heading, then one line for each entry, in
/// the order of the entries.
pub open spec fn listing(dir: Seq<char>, entries: Seq<DirEntry>) -> Seq<Seq<char>> {
    Seq::new(
        entries.len() + 1,
        |i: int|
            if i == 0 {
                "Contents of "@ + dir
            } else {
                entry_line(entries[i - 1])
            },
    )
}

/// Writes the line that lists one entry.
fn print_entry(entry: &DirEntry) -> (out: String)
    ensures
        out@ == entry_line(*entry),
{
    let mut out = match &entry.kind {
        EntryKind::Directory => String::from_str("d"),
        EntryKind::File => String::from_str("f"),
        EntryKind::Symlink { .. } => String::from_str("L"),
        EntryKind::Other { description } => description.clone(),
    };
    out.append("    ");
    out.append(entry.path.as_str());
    match &entry.kind {
        EntryKind::Symlink { target } => {
            out.append(" -> ");
            out.append(target.as_str());
        },
        _ => {},
    }
    out
}

/// Writes the listing of a directory, line by line.
pub fn print_dir(dir: &str, entries: &Vec<DirEntry>) -> (lines: Vec<String>)
    ensures
        lines@.len() == entries@.len() + 1,
        forall|i: int| 0 <= i < lines@.len() ==> lines@[i]@ == listing(dir@, entries@)[i],
{
    let mut lines: Vec<String> = Vec::new();
    lines.push(join2("Contents of ", dir));
    let mut at: usize = 0;
    while at < entries.len()
        invariant
            at <= entries.len(),
            lines@.len() == at + 1,
            forall|i: int| 0 <= i < lines@.len() ==> lines@[i]@ == listing(dir@, entries@)[i],
        decreases entries.len() - at,
    {
        lines.push(print_entry(&entries[at]));
        at = at + 1;
    }
    lines
}

} // verus!
