//! The operations that a launch asks its caller to perform.
//!
//! An `Operation` holds, as plain values, everything that the caller needs to
//! make one call to the operating system or to the registry. An `Action` is
//! the same operation by the characters of its strings; contracts are stated
//! over actions.

use vstd::prelude::*;

verus! {

/// A mount request.
#[derive(Debug, PartialEq, Eq)]
pub struct Mount {
    pub source: String,
    pub target: String,
    pub fstype: String,
    /// Bind the source to the target instead of mounting a device.
    pub bind: bool,
    /// Take the mounts below the source along.
    pub recursive: bool,
}

/// A mount request, by the characters of its strings.
pub struct MountView {
    pub source: Seq<char>,
    pub target: Seq<char>,
    pub fstype: Seq<char>,
    pub bind: bool,
    pub recursive: bool,
}

impl View for Mount {
    type V = MountView;

    open spec fn view(&self) -> MountView {
        MountView {
            source: self.source@,
            target: self.target@,
            fstype: self.fstype@,
            bind: self.bind,
            recursive: self.recursive,
        }
    }
}

/// One operation for the caller to perform.
#[derive(Debug, PartialEq, Eq)]
pub enum Operation {
    /// Open an unnamed pipe.
    OpenPipe,
    /// Make a fresh temporary directory.
    MakeTempDir,
    Mount(Mount),
    /// Make a directory, and its parents where they are missing.
    CreateDirAll { path: String },
    /// Make a character device node.
    MakeCharDevice { path: String, mode: u32, major: u64, minor: u64 },
    /// Detach whatever is mounted at `path`.
    Unmount { path: String },
    /// Download the layers of an image into the directory `into`.
    PullImage { name: String, tag: String, into: String },
    /// Unpack a gzip-compressed tar archive into the directory `into`,
    /// overwriting what is there.
    Extract { archive: String, into: String },
    RemoveFile { path: String },
    Fork,
    CloseFd { fd: i32 },
    /// Read once from `fd`, at most `capacity` bytes.
    Read { fd: i32, capacity: usize },
    /// Leave the namespaces of the parent.
    Unshare { mount: bool, pid: bool },
    /// Make `new_root` the root directory, and move the old root to `put_old`.
    PivotRoot { new_root: String, put_old: String },
    RemoveDirAll { path: String },
    ChangeDir { path: String },
    /// Run a command to its end, with the standard output and error streams
    /// of this process.
    Execute { command: String, args: Vec<String> },
    Write { fd: i32, text: String },
    /// End this process.
    Exit { code: i32 },
}

/// An operation, by the characters of its strings.
pub enum Action {
    OpenPipe,
    MakeTempDir,
    Mount(MountView),
    CreateDirAll { path: Seq<char> },
    MakeCharDevice { path: Seq<char>, mode: u32, major: u64, minor: u64 },
    Unmount { path: Seq<char> },
    PullImage { name: Seq<char>, tag: Seq<char>, into: Seq<char> },
    Extract { archive: Seq<char>, into: Seq<char> },
    RemoveFile { path: Seq<char> },
    Fork,
    CloseFd { fd: i32 },
    Read { fd: i32, capacity: usize },
    Unshare { mount: bool, pid: bool },
    PivotRoot { new_root: Seq<char>, put_old: Seq<char> },
    RemoveDirAll { path: Seq<char> },
    ChangeDir { path: Seq<char> },
    Execute { command: Seq<char>, args: Seq<Seq<char>> },
    Write { fd: i32, text: Seq<char> },
    Exit { code: i32 },
}

/// The strings of a list, by their characters.
pub open spec fn texts(list: Seq<String>) -> Seq<Seq<char>> {
    Seq::new(list.len(), |i: int| list[i]@)
}

/// The operations of a list, as actions.
pub open spec fn actions(list: Seq<Operation>) -> Seq<Action> {
    Seq::new(list.len(), |i: int| list[i]@)
}

impl View for Operation {
    type V = Action;

    open spec fn view(&self) -> Action {
        match self {
            Operation::OpenPipe => Action::OpenPipe,
            Operation::MakeTempDir => Action::MakeTempDir,
            Operation::Mount(mount) => Action::Mount(mount@),
            Operation::CreateDirAll { path } => Action::CreateDirAll { path: path@ },
            Operation::MakeCharDevice { path, mode, major, minor } => Action::MakeCharDevice {
                path: path@,
                mode: *mode,
                major: *major,
                minor: *minor,
            },
            Operation::Unmount { path } => Action::Unmount { path: path@ },
            Operation::PullImage { name, tag, into } => Action::PullImage {
                name: name@,
                tag: tag@,
                into: into@,
            },
            Operation::Extract { archive, into } => Action::Extract {
                archive: archive@,
                into: into@,
            },
            Operation::RemoveFile { path } => Action::RemoveFile { path: path@ },
            Operation::Fork => Action::Fork,
            Operation::CloseFd { fd } => Action::CloseFd { fd: *fd },
            Operation::Read { fd, capacity } => Action::Read { fd: *fd, capacity: *capacity },
            Operation::Unshare { mount, pid } => Action::Unshare { mount: *mount, pid: *pid },
            Operation::PivotRoot { new_root, put_old } => Action::PivotRoot {
                new_root: new_root@,
                put_old: put_old@,
            },
            Operation::RemoveDirAll { path } => Action::RemoveDirAll { path: path@ },
            Operation::ChangeDir { path } => Action::ChangeDir { path: path@ },
            Operation::Execute { command, args } => Action::Execute {
                command: command@,
                args: texts(args@),
            },
            Operation::Write { fd, text } => Action::Write { fd: *fd, text: text@ },
            Operation::Exit { code } => Action::Exit { code: *code },
        }
    }
}

impl Action {
    /// Whether a launch goes on when the operation fails. That holds of the
    /// unmounts only: they clear away what an earlier run may have left, and
    /// mostly find nothing mounted.
    pub open spec fn tolerated(self) -> bool {
        self is Unmount
    }
}

impl Operation {
    /// Whether a launch goes on when the operation fails.
    pub fn tolerated(&self) -> (out: bool)
        ensures
            out == self@.tolerated(),
    {
        match self {
            Operation::Unmount { .. } => true,
            _ => false,
        }
    }
}

/// Copies a list of strings.
pub fn copy_texts(list: &[String]) -> (out: Vec<String>)
    ensures
        texts(out@) == texts(list@),
{
    let mut out: Vec<String> = Vec::new();
    let mut at: usize = 0;
    while at < list.len()
        invariant
            at <= list.len(),
            out@.len() == at,
            forall|i: int| 0 <= i < at ==> out@[i]@ == list@[i]@,
        decreases list.len() - at,
    {
        out.push(list[at].clone());
        at = at + 1;
    }
    assert(texts(out@) =~= texts(list@));
    out
}

} // verus!
