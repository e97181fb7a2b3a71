//! The launch of one command in a sandbox, and the report of how it ended.
//!
//! A launch goes through phases. In each phase the sandbox gives the
//! operations to perform, in order; the caller performs them and reports the
//! outcome, which moves the launch on. The process forks on the way: the
//! parent ends up with a running sandbox, the child runs the command and
//! reports its exit status through a pipe, as one JSON message.

use crate::fs::{bind_mount, join_path, joined, self_bind};
use crate::images::{
    blob_file_name, pulls_of, reference_name, reference_tag, BlobDescriptor, ImageReference, Pull,
};
use crate::json::{document_of, field_of, parse, signed_of, Json, Tree};
use crate::plan::{actions, copy_texts, texts, Action, Operation};
use crate::message::{
    lemma_messages_differ, lemma_status_message_is_short, read_written_status, status_bytes,
    status_message, write_status, written_status,
};
use vstd::prelude::*;
use vstd::string::*;

verus! {

/// The status that stands for a command that gave no exit code, and for a
/// sandbox that failed.
pub const FAILURE_STATUS: i32 = -1;

/// The size of the buffer that takes the status message.
pub const STATUS_CAPACITY: usize = 1024;

/// How the command in the sandbox ended.
#[derive(Debug, Clone, Copy, PartialEq, Eq, Structural)]
pub struct ChildStatus {
    pub status: i32,
}

/// Why the pipe gave no status.
#[derive(Debug, Clone, Copy, PartialEq, Eq, Structural)]
pub enum ChannelError {
    /// Nothing was received: the child ended without a report.
    Missing,
    /// What was received is not a status message.
    Malformed,
    /// The sandbox is not waiting for a status: its command has not been
    /// started by this process, or its status has been taken already.
    Closed,
}

/// The status that a JSON document reports, if it is a status message: a
/// record of the one field `status`, an integer in the range of `i32`.
pub open spec fn status_of(document: Option<Tree>) -> Option<i32> {
    match document {
        Some(record) => match signed_of(field_of(record, "status"@, 0, 1)) {
            Some(status) => if i32::MIN <= status <= i32::MAX {
                Some(status as i32)
            } else {
                None
            },
            None => None,
        },
        None => None,
    }
}

/// What the bytes received from the pipe report: nothing, where there are
/// none; the status whose message they are; else the status that they report
/// as a JSON document; else nothing that can be read.
pub open spec fn received_status(received: Seq<u8>) -> Result<ChildStatus, ChannelError> {
    if received.len() == 0 {
        Err(ChannelError::Missing)
    } else {
        match written_status(received) {
            Some(status) => Ok(ChildStatus { status }),
            None => match status_of(document_of(received)) {
                Some(status) => Ok(ChildStatus { status }),
                None => Err(ChannelError::Malformed),
            },
        }
    }
}

/// The status that the child writes is the status that the parent reads:
/// the message of a status, received as it was written, reports that status.
pub proof fn lemma_status_comes_back(status: i32)
    ensures
        received_status(status_bytes(status)) == Ok::<ChildStatus, ChannelError>(
            ChildStatus { status },
        ),
{
    lemma_status_message_is_short(status);
    let read = choose|read: i32| status_bytes(read) == status_bytes(status);
    lemma_messages_differ(read, status);
}

/// A status message fits the buffer that takes it.
pub proof fn lemma_status_message_fits(status: i32)
    ensures
        status_bytes(status).len() <= STATUS_CAPACITY,
{
    lemma_status_message_is_short(status);
}

impl ChildStatus {
    /// The status of a command that ended with `code`, or without one when
    /// a signal ended it.
    pub fn from_exit_code(code: Option<i32>) -> (out: ChildStatus)
        ensures
            out.status == match code {
                Some(code) => code,
                None => FAILURE_STATUS,
            },
    {
        match code {
            Some(code) => ChildStatus { status: code },
            None => ChildStatus { status: FAILURE_STATUS },
        }
    }

    /// Writes the message that reports the status.
    pub fn encode(&self) -> (out: String)
        ensures
            out@ == status_message(self.status),
    {
        write_status(self.status)
    }

    /// Reads the status that a document reports.
    pub fn from_json(document: &Json) -> (out: Option<ChildStatus>)
        ensures
            match out {
                Some(reported) => status_of(Some(document@)) == Some(reported.status),
                None => status_of(Some(document@)) is None,
            },
    {
        let status = match document.field("status", 0, 1) {
            Some(found) => found.as_signed(),
            None => None,
        };
        match status {
            Some(status) => {
                if -2147483648 <= status && status <= 2147483647 {
                    Some(ChildStatus { status: status as i32 })
                } else {
                    None
                }
            },
            None => None,
        }
    }

    /// Reads the status from what the pipe gave.
    pub fn decode(received: &[u8]) -> (out: Result<ChildStatus, ChannelError>)
        ensures
            out == received_status(received@),
    {
        if received.len() == 0 {
            return Err(ChannelError::Missing);
        }
        match read_written_status(received) {
            Some(status) => {
                return Ok(ChildStatus { status });
            },
            None => {},
        }
        let reported = match parse(received) {
            Some(document) => ChildStatus::from_json(&document),
            None => None,
        };
        match reported {
            Some(reported) => Ok(reported),
            None => Err(ChannelError::Malformed),
        }
    }
}

/// The exit code to pass on for what the pipe gave: the status of the
/// command, or the failure status where none was reported.
pub fn exit_code(outcome: &Result<ChildStatus, ChannelError>) -> (code: i32)
    ensures
        code == match *outcome {
            Ok(reported) => reported.status,
            Err(_) => FAILURE_STATUS,
        },
{
    match outcome {
        Ok(reported) => reported.status,
        Err(_) => FAILURE_STATUS,
    }
}

/// The phases of a launch.
#[derive(Debug, Clone, Copy, PartialEq, Eq, Structural)]
pub enum Phase {
    /// Open the pipe that will carry the status.
    Channel,
    /// Make the directory that will be the root.
    Root,
    /// Make the directory fit to be a root.
    Setup,
    /// Download the layers of the image.
    Pull,
    /// Unpack the layers into the root, in the order of the manifest.
    Unpack,
    /// Remove the downloaded archives.
    Tidy,
    /// Fork.
    Fork,
    /// In the parent: let go of the writing end of the pipe.
    Parent,
    /// In the parent: the sandbox runs; its status can be taken.
    Running,
    /// In the child: enter the sandbox.
    Child,
    /// In the child: run the command.
    Command,
    /// In the child: report the status and end.
    Report,
    /// Nothing is left to do.
    Finished,
    /// The launch has failed.
    Failed,
}

/// The kinds of failure of a launch.
#[derive(Debug, Clone, Copy, PartialEq, Eq, Structural)]
pub enum SandboxError {
    /// The pipe, the root directory, its mount, its device node or its
    /// directories could not be made, or the process could not fork.
    Setup,
    /// The registry did not give the image.
    Registry,
    /// An archive could not be opened, decompressed or unpacked.
    Extraction,
    /// The child could not enter the sandbox or report its status.
    Launch,
}

/// The kind of failure that belongs to a phase.
pub open spec fn failure_of(phase: Phase) -> SandboxError {
    match phase {
        Phase::Pull => SandboxError::Registry,
        Phase::Unpack | Phase::Tidy => SandboxError::Extraction,
        Phase::Child | Phase::Command | Phase::Report => SandboxError::Launch,
        _ => SandboxError::Setup,
    }
}

/// What the caller reports of the operations of a phase.
#[derive(Debug, PartialEq, Eq)]
pub enum Outcome {
    /// All operations were performed. One that is tolerated may have failed.
    Done,
    /// An operation that is not tolerated has failed.
    Failed,
    /// The two ends of the pipe that was opened.
    Pipe { read: i32, write: i32 },
    /// The temporary directory that was made.
    Directory { path: String },
    /// The archives of the layers that were downloaded, in the order of the
    /// manifest.
    Archives { paths: Vec<String> },
    /// The process has forked, and this is the parent.
    Parent { child: i32 },
    /// The process has forked, and this is the child.
    Child,
    /// The command has ended, with an exit code unless a signal ended it.
    Exited { code: Option<i32> },
}

/// An outcome, by the characters of its strings.
pub enum Event {
    Done,
    Failed,
    Pipe { read: i32, write: i32 },
    Directory { path: Seq<char> },
    Archives { paths: Seq<Seq<char>> },
    Parent { child: i32 },
    Child,
    Exited { code: Option<i32> },
}

impl View for Outcome {
    type V = Event;

    open spec fn view(&self) -> Event {
        match self {
            Outcome::Done => Event::Done,
            Outcome::Failed => Event::Failed,
            Outcome::Pipe { read, write } => Event::Pipe { read: *read, write: *write },
            Outcome::Directory { path } => Event::Directory { path: path@ },
            Outcome::Archives { paths } => Event::Archives { paths: texts(paths@) },
            Outcome::Parent { child } => Event::Parent { child: *child },
            Outcome::Child => Event::Child,
            Outcome::Exited { code } => Event::Exited { code: *code },
        }
    }
}

/// The operations that make the null device of a root: the directory `dev`,
/// and in it the character device with major number 1 and minor number 3
/// under the name `null`. Its mode is octal 666: the owner, the group and
/// all others may read and write it, and nobody may execute it.
pub open spec fn device_plan(root: Seq<char>) -> Seq<Action> {
    seq![
        Action::CreateDirAll { path: joined(root, "dev"@) },
        Action::MakeCharDevice {
            path: joined(joined(root, "dev"@), "null"@),
            mode: 0o666,
            major: 1,
            minor: 3,
        },
    ]
}

/// The operations that make a directory fit to be a root: it becomes a mount
/// point of its own, gets its null device and a directory `tmp`, and an
/// empty directory `old_root` for the old root to move to, after whatever a
/// run before may have left mounted there is detached.
pub open spec fn root_plan(root: Seq<char>) -> Seq<Action> {
    seq![Action::Mount(self_bind(root))] + device_plan(root) + seq![
        Action::CreateDirAll { path: joined(root, "tmp/"@) },
        Action::Unmount { path: joined(root, "old_root"@) },
        Action::CreateDirAll { path: joined(root, "old_root"@) },
    ]
}

/// The operations that unpack archives into a directory: one for each
/// archive, in the order of the archives.
pub open spec fn extract_plan(archives: Seq<Seq<char>>, into: Seq<char>) -> Seq<Action> {
    Seq::new(archives.len(), |i: int| Action::Extract { archive: archives[i], into })
}

/// The archives that downloads store, in the order of the downloads.
pub open spec fn archives_of(pulls: Seq<Pull>) -> Seq<Seq<char>> {
    Seq::new(pulls.len(), |i: int| pulls[i].archive)
}

/// The layers of a manifest are unpacked in the order of the manifest: there
/// is one unpacking for each layer, and the unpacking at each position is
/// that of the archive of the layer at the same position.
pub proof fn lemma_layers_are_unpacked_in_order(
    layers: Seq<BlobDescriptor>,
    scratch: Seq<char>,
    root: Seq<char>,
)
    requires
        pulls_of(layers, scratch) is Some,
    ensures
        extract_plan(archives_of(pulls_of(layers, scratch)->0), root).len() == layers.len(),
        forall|i: int|
            0 <= i < layers.len() ==> #[trigger] extract_plan(
                archives_of(pulls_of(layers, scratch)->0),
                root,
            )[i] == (Action::Extract {
                archive: joined(scratch, blob_file_name(layers[i].digest)->0),
                into: root,
            }),
{
}

/// The operations that remove archives, in the order of the archives.
pub open spec fn remove_plan(archives: Seq<Seq<char>>) -> Seq<Action> {
    Seq::new(archives.len(), |i: int| Action::RemoveFile { path: archives[i] })
}

/// The operations by which the child enters the sandbox: it lets go of the
/// reading end of the pipe, leaves the mount and process-id namespaces of its
/// parent, makes `root` its root directory, detaches and removes the old
/// root, and goes to the new root.
pub open spec fn child_plan(root: Seq<char>, read_pipe: i32) -> Seq<Action> {
    seq![
        Action::CloseFd { fd: read_pipe },
        Action::Unshare { mount: true, pid: true },
        Action::PivotRoot { new_root: root, put_old: joined(root, "old_root"@) },
        Action::Unmount { path: joined("/"@, "old_root"@) },
        Action::RemoveDirAll { path: joined("/"@, "old_root"@) },
        Action::ChangeDir { path: "/"@ },
    ]
}

/// The operations by which the child reports a status and ends. It ends
/// with code 0 whatever the status: the message is the report.
pub open spec fn report_plan(status: i32, write_pipe: i32) -> Seq<Action> {
    seq![
        Action::Write { fd: write_pipe, text: status_message(status) },
        Action::CloseFd { fd: write_pipe },
        Action::Exit { code: 0 },
    ]
}

/// The operations by which the parent takes the status: one read, and the
/// reading end of the pipe is let go.
pub open spec fn status_plan(read_pipe: i32) -> Seq<Action> {
    seq![
        Action::Read { fd: read_pipe, capacity: STATUS_CAPACITY },
        Action::CloseFd { fd: read_pipe },
    ]
}

/// The state of a launch.
pub struct Launch {
    pub name: Seq<char>,
    pub tag: Seq<char>,
    pub command: Seq<char>,
    pub args: Seq<Seq<char>>,
    pub phase: Phase,
    /// The kind of failure, once the launch has failed.
    pub error: Option<SandboxError>,
    pub root_dir: Seq<char>,
    pub archives: Seq<Seq<char>>,
    pub child_pid: i32,
    pub read_pipe: i32,
    pub write_pipe: i32,
    /// The status that the child reports.
    pub status: i32,
}

impl Launch {
    /// A launch at its start.
    pub open spec fn start(image: Seq<char>, command: Seq<char>, args: Seq<Seq<char>>) -> Launch {
        Launch {
            name: reference_name(image),
            tag: reference_tag(image),
            command,
            args,
            phase: Phase::Channel,
            error: None,
            root_dir: Seq::empty(),
            archives: Seq::empty(),
            child_pid: 0,
            read_pipe: -1i32,
            write_pipe: -1i32,
            status: FAILURE_STATUS,
        }
    }

    /// The operations of the current phase, in the order in which they are
    /// to be performed.
    pub open spec fn plan(self) -> Seq<Action> {
        match self.phase {
            Phase::Channel => seq![Action::OpenPipe],
            Phase::Root => seq![Action::MakeTempDir],
            Phase::Setup => root_plan(self.root_dir),
            Phase::Pull => seq![
                Action::PullImage { name: self.name, tag: self.tag, into: "/tmp/"@ },
            ],
            Phase::Unpack => extract_plan(self.archives, self.root_dir),
            Phase::Tidy => remove_plan(self.archives),
            Phase::Fork => seq![Action::Fork],
            Phase::Parent => seq![Action::CloseFd { fd: self.write_pipe }],
            Phase::Running => status_plan(self.read_pipe),
            Phase::Child => child_plan(self.root_dir, self.read_pipe),
            Phase::Command => seq![Action::Execute { command: self.command, args: self.args }],
            Phase::Report => report_plan(self.status, self.write_pipe),
            Phase::Finished => Seq::empty(),
            Phase::Failed => Seq::empty(),
        }
    }

    /// The launch, failed in its current phase.
    pub open spec fn fail(self) -> Launch {
        Launch { phase: Phase::Failed, error: Some(failure_of(self.phase)), ..self }
    }

    /// The launch after the outcome of its current phase.
    ///
    /// Each phase waits for one kind of outcome and then gives way to the
    /// next phase; any other outcome fails the launch. A command that could
    /// not be run is no failure of the launch: the child reports the failure
    /// status instead. A launch that runs, is finished or has failed stays
    /// as it is.
    pub open spec fn advance(self, event: Event) -> Launch {
        match self.phase {
            Phase::Channel => match event {
                Event::Pipe { read, write } => Launch {
                    phase: Phase::Root,
                    read_pipe: read,
                    write_pipe: write,
                    ..self
                },
                _ => self.fail(),
            },
            Phase::Root => match event {
                Event::Directory { path } => Launch { phase: Phase::Setup, root_dir: path, ..self },
                _ => self.fail(),
            },
            Phase::Setup => match event {
                Event::Done => Launch { phase: Phase::Pull, ..self },
                _ => self.fail(),
            },
            Phase::Pull => match event {
                Event::Archives { paths } => Launch {
                    phase: Phase::Unpack,
                    archives: paths,
                    ..self
                },
                _ => self.fail(),
            },
            Phase::Unpack => match event {
                Event::Done => Launch { phase: Phase::Tidy, ..self },
                _ => self.fail(),
            },
            Phase::Tidy => match event {
                Event::Done => Launch { phase: Phase::Fork, ..self },
                _ => self.fail(),
            },
            Phase::Fork => match event {
                Event::Parent { child } => Launch {
                    phase: Phase::Parent,
                    child_pid: child,
                    ..self
                },
                Event::Child => Launch { phase: Phase::Child, ..self },
                _ => self.fail(),
            },
            Phase::Parent => match event {
                Event::Done => Launch { phase: Phase::Running, ..self },
                _ => self.fail(),
            },
            Phase::Child => match event {
                Event::Done => Launch { phase: Phase::Command, ..self },
                _ => self.fail(),
            },
            Phase::Command => match event {
                Event::Exited { code: Some(code) } => Launch {
                    phase: Phase::Report,
                    status: code,
                    ..self
                },
                Event::Exited { code: None } => Launch {
                    phase: Phase::Report,
                    status: FAILURE_STATUS,
                    ..self
                },
                Event::Failed => Launch { phase: Phase::Report, status: FAILURE_STATUS, ..self },
                _ => self.fail(),
            },
            Phase::Report => match event {
                Event::Done => Launch { phase: Phase::Finished, ..self },
                _ => self.fail(),
            },
            Phase::Running => self,
            Phase::Finished => self,
            Phase::Failed => self,
        }
    }

    /// The launch after a series of outcomes.
    pub open spec fn advance_all(self, events: Seq<Event>) -> Launch
        decreases events.len(),
    {
        if events.len() == 0 {
            self
        } else {
            self.advance(events.first()).advance_all(events.drop_first())
        }
    }
}

impl Launch {
    /// What holds of every launch that was started and moved on by outcomes:
    /// it has a kind of failure exactly when it has failed.
    pub open spec fn consistent(self) -> bool {
        self.error is Some <==> self.phase == Phase::Failed
    }
}

/// A launch is consistent at its start, and stays so through every outcome.
pub proof fn lemma_launch_stays_consistent(
    image: Seq<char>,
    command: Seq<char>,
    args: Seq<Seq<char>>,
    events: Seq<Event>,
)
    ensures
        Launch::start(image, command, args).advance_all(events).consistent(),
{
    lemma_consistency_is_kept(Launch::start(image, command, args), events);
}

/// Outcomes keep a consistent launch consistent.
proof fn lemma_consistency_is_kept(launch: Launch, events: Seq<Event>)
    requires
        launch.consistent(),
    ensures
        launch.advance_all(events).consistent(),
    decreases events.len(),
{
    if events.len() > 0 {
        lemma_consistency_is_kept(launch.advance(events.first()), events.drop_first());
    }
}

/// A launch that has failed stays failed, whatever is reported to it, and
/// asks for no operation: nothing is done after a failure, and the command
/// is not run.
pub proof fn lemma_failure_is_final(launch: Launch, events: Seq<Event>)
    requires
        launch.phase == Phase::Failed,
    ensures
        launch.advance_all(events) == launch,
        launch.advance_all(events).plan() == Seq::<Action>::empty(),
    decreases events.len(),
{
    if events.len() > 0 {
        lemma_failure_is_final(launch, events.drop_first());
    }
}

/// The phase that follows `phase` on the way to the command, when `event` is
/// the outcome that `phase` waits for.
pub open spec fn towards_command(phase: Phase, event: Event) -> Option<Phase> {
    match (phase, event) {
        (Phase::Channel, Event::Pipe { .. }) => Some(Phase::Root),
        (Phase::Root, Event::Directory { .. }) => Some(Phase::Setup),
        (Phase::Setup, Event::Done) => Some(Phase::Pull),
        (Phase::Pull, Event::Archives { .. }) => Some(Phase::Unpack),
        (Phase::Unpack, Event::Done) => Some(Phase::Tidy),
        (Phase::Tidy, Event::Done) => Some(Phase::Fork),
        (Phase::Fork, Event::Child) => Some(Phase::Child),
        (Phase::Child, Event::Done) => Some(Phase::Command),
        _ => None,
    }
}

/// Whether a series of outcomes is the one that leads from `phase` to the
/// command: each phase on the way gets the outcome it waits for, and nothing
/// follows.
pub open spec fn leads_to_command(phase: Phase, events: Seq<Event>) -> bool
    decreases events.len(),
{
    if events.len() == 0 {
        phase == Phase::Command
    } else {
        match towards_command(phase, events.first()) {
            Some(next) => leads_to_command(next, events.drop_first()),
            None => false,
        }
    }
}

/// The command is run only when everything before it has succeeded, in
/// order: the pipe is open, the root directory is made and set up, the image
/// is pulled, unpacked and tidied away, the process has forked and the child
/// has entered the sandbox. No other series of outcomes brings a launch to
/// its command.
pub proof fn lemma_command_runs_last(launch: Launch, events: Seq<Event>)
    ensures
        launch.advance_all(events).phase == Phase::Command <==> leads_to_command(
            launch.phase,
            events,
        ),
    decreases events.len(),
{
    if events.len() > 0 {
        let next = launch.advance(events.first());
        lemma_command_runs_last(next, events.drop_first());
        if towards_command(launch.phase, events.first()) is None {
            lemma_never_back_to_command(next, events.drop_first());
        }
    }
}

/// A launch that has left the way to the command does not come back to it.
proof fn lemma_never_back_to_command(launch: Launch, events: Seq<Event>)
    requires
        launch.phase == Phase::Parent || launch.phase == Phase::Running || launch.phase
            == Phase::Report || launch.phase == Phase::Finished || launch.phase == Phase::Failed,
    ensures
        launch.advance_all(events).phase != Phase::Command,
    decreases events.len(),
{
    if events.len() > 0 {
        lemma_never_back_to_command(launch.advance(events.first()), events.drop_first());
    }
}

/// Only the phase of the command asks for the command to be run.
pub proof fn lemma_only_the_command_phase_executes(launch: Launch, at: int)
    requires
        0 <= at < launch.plan().len(),
        launch.plan()[at] is Execute,
    ensures
        launch.phase == Phase::Command,
{
}

/// While a launch is under way, the report of a failure fails it, with the
/// kind of failure of its phase. The one exception is the phase of the
/// command.
pub proof fn lemma_failure_stops_the_launch(launch: Launch)
    requires
        launch.phase != Phase::Command,
        launch.phase != Phase::Running,
        launch.phase != Phase::Finished,
        launch.phase != Phase::Failed,
    ensures
        launch.advance(Event::Failed).phase == Phase::Failed,
        launch.advance(Event::Failed).error == Some(failure_of(launch.phase)),
{
}

/// What the command ends with is what the parent reads: the child is asked
/// to write a message, and that message, received as it is written, reports
/// the exit code of the command, or the failure status where the command
/// gave none.
pub proof fn lemma_exit_code_reaches_the_parent(child: Launch, code: Option<i32>)
    requires
        child.phase == Phase::Command,
    ensures
        ({
            let status = match code {
                Some(code) => code,
                None => FAILURE_STATUS,
            };
            let report = child.advance(Event::Exited { code }).plan();
            &&& report.len() == 3
            &&& report[0] == (Action::Write {
                fd: child.write_pipe,
                text: status_message(status),
            })
            &&& received_status(status_bytes(status)) == Ok::<ChildStatus, ChannelError>(
                ChildStatus { status },
            )
        }),
{
    let status = match code {
        Some(code) => code,
        None => FAILURE_STATUS,
    };
    lemma_status_comes_back(status);
}

/// A command that cannot be run, or that a signal ends, makes the child
/// report the failure status.
pub proof fn lemma_command_failure_is_reported(launch: Launch)
    requires
        launch.phase == Phase::Command,
    ensures
        launch.advance(Event::Failed).plan() == report_plan(FAILURE_STATUS, launch.write_pipe),
        launch.advance(Event::Exited { code: None }).plan() == report_plan(
            FAILURE_STATUS,
            launch.write_pipe,
        ),
{
}

/// Plans the null device of a root.
pub fn create_dev_null(root_path: &str) -> (out: Vec<Operation>)
    ensures
        actions(out@) == device_plan(root_path@),
{
    let root_dev = join_path(root_path, "dev");
    let dev_null = join_path(root_dev.as_str(), "null");
    let mut out: Vec<Operation> = Vec::new();
    out.push(Operation::CreateDirAll { path: root_dev });
    out.push(Operation::MakeCharDevice { path: dev_null, mode: 0o666, major: 1, minor: 3 });
    assert(actions(out@) =~= device_plan(root_path@));
    out
}

/// Plans what makes a directory fit to be a root.
pub fn init_sandbox_root(root: &str) -> (out: Vec<Operation>)
    ensures
        actions(out@) == root_plan(root@),
{
    let mut out: Vec<Operation> = Vec::new();
    out.push(Operation::Mount(bind_mount(root)));
    let mut device = create_dev_null(root);
    proof {
        assert(actions(device@).len() == 2);
        assert(actions(device@)[0] == device@[0]@);
        assert(actions(device@)[1] == device@[1]@);
    }
    out.append(&mut device);
    out.push(Operation::CreateDirAll { path: join_path(root, "tmp/") });
    out.push(Operation::Unmount { path: join_path(root, "old_root") });
    out.push(Operation::CreateDirAll { path: join_path(root, "old_root") });
    assert(actions(out@) =~= root_plan(root@));
    out
}

/// Plans the unpacking of archives into a directory.
pub fn extract_layers(archives: &[String], dest: &str) -> (out: Vec<Operation>)
    ensures
        actions(out@) == extract_plan(texts(archives@), dest@),
{
    let mut out: Vec<Operation> = Vec::new();
    let mut at: usize = 0;
    while at < archives.len()
        invariant
            at <= archives.len(),
            out@.len() == at,
            forall|i: int|
                0 <= i < at ==> (#[trigger] out@[i])@ == (Action::Extract {
                    archive: archives@[i]@,
                    into: dest@,
                }),
        decreases archives.len() - at,
    {
        out.push(
            Operation::Extract { archive: archives[at].clone(), into: String::from_str(dest) },
        );
        at = at + 1;
    }
    assert(actions(out@) =~= extract_plan(texts(archives@), dest@));
    out
}

/// Plans the removal of archives.
pub fn remove_archives(archives: &[String]) -> (out: Vec<Operation>)
    ensures
        actions(out@) == remove_plan(texts(archives@)),
{
    let mut out: Vec<Operation> = Vec::new();
    let mut at: usize = 0;
    while at < archives.len()
        invariant
            at <= archives.len(),
            out@.len() == at,
            forall|i: int|
                0 <= i < at ==> (#[trigger] out@[i])@ == (Action::RemoveFile {
                    path: archives@[i]@,
                }),
        decreases archives.len() - at,
    {
        out.push(Operation::RemoveFile { path: archives[at].clone() });
        at = at + 1;
    }
    assert(actions(out@) =~= remove_plan(texts(archives@)));
    out
}

/// Plans the entry of the child into the sandbox.
pub fn enter_sandbox(root: &str, read_pipe: i32) -> (out: Vec<Operation>)
    ensures
        actions(out@) == child_plan(root@, read_pipe),
{
    let mut out: Vec<Operation> = Vec::new();
    out.push(Operation::CloseFd { fd: read_pipe });
    out.push(Operation::Unshare { mount: true, pid: true });
    out.push(
        Operation::PivotRoot {
            new_root: String::from_str(root),
            put_old: join_path(root, "old_root"),
        },
    );
    out.push(Operation::Unmount { path: join_path("/", "old_root") });
    out.push(Operation::RemoveDirAll { path: join_path("/", "old_root") });
    out.push(Operation::ChangeDir { path: String::from_str("/") });
    assert(actions(out@) =~= child_plan(root@, read_pipe));
    out
}

/// Plans the report of a status by the child.
pub fn report_status(status: ChildStatus, write_pipe: i32) -> (out: Vec<Operation>)
    ensures
        actions(out@) == report_plan(status.status, write_pipe),
{
    let mut out: Vec<Operation> = Vec::new();
    out.push(Operation::Write { fd: write_pipe, text: status.encode() });
    out.push(Operation::CloseFd { fd: write_pipe });
    out.push(Operation::Exit { code: 0 });
    assert(actions(out@) =~= report_plan(status.status, write_pipe));
    out
}

/// Plans the taking of the status by the parent.
pub fn take_status(read_pipe: i32) -> (out: Vec<Operation>)
    ensures
        actions(out@) == status_plan(read_pipe),
{
    let mut out: Vec<Operation> = Vec::new();
    out.push(Operation::Read { fd: read_pipe, capacity: STATUS_CAPACITY });
    out.push(Operation::CloseFd { fd: read_pipe });
    assert(actions(out@) =~= status_plan(read_pipe));
    out
}

/// The plan of one operation.
fn only(operation: Operation) -> (out: Vec<Operation>)
    ensures
        actions(out@) == seq![operation@],
{
    let mut out: Vec<Operation> = Vec::new();
    out.push(operation);
    assert(actions(out@) =~= seq![operation@]);
    out
}

/// The plan of no operation.
fn nothing() -> (out: Vec<Operation>)
    ensures
        actions(out@) == Seq::<Action>::empty(),
{
    let out: Vec<Operation> = Vec::new();
    assert(actions(out@) =~= Seq::<Action>::empty());
    out
}

/// A sandbox: first the launch of a command in a root directory of its own,
/// then, in the parent, the handle by which the status of the command is
/// taken.
#[derive(Debug)]
pub struct Sandbox {
    image: ImageReference,
    command: String,
    args: Vec<String>,
    phase: Phase,
    error: Option<SandboxError>,
    root_dir: String,
    archives: Vec<String>,
    child_pid: i32,
    read_pipe: i32,
    write_pipe: i32,
    status: ChildStatus,
}

impl View for Sandbox {
    type V = Launch;

    closed spec fn view(&self) -> Launch {
        Launch {
            name: self.image.name@,
            tag: self.image.tag@,
            command: self.command@,
            args: texts(self.args@),
            phase: self.phase,
            error: self.error,
            root_dir: self.root_dir@,
            archives: texts(self.archives@),
            child_pid: self.child_pid,
            read_pipe: self.read_pipe,
            write_pipe: self.write_pipe,
            status: self.status.status,
        }
    }
}

impl Sandbox {
    /// Starts the launch of `command` with `args` in a sandbox made from
    /// `image`, which is given as `name` or `name:tag`.
    pub fn run(image: &str, command: &str, args: &[String]) -> (sandbox: Sandbox)
        ensures
            sandbox@ == Launch::start(image@, command@, texts(args@)),
    {
        let sandbox = Sandbox {
            image: ImageReference::parse(image),
            command: String::from_str(command),
            args: copy_texts(args),
            phase: Phase::Channel,
            error: None,
            root_dir: String::new(),
            archives: Vec::new(),
            child_pid: 0,
            read_pipe: -1,
            write_pipe: -1,
            status: ChildStatus { status: FAILURE_STATUS },
        };
        assert(texts(sandbox.archives@) =~= Seq::<Seq<char>>::empty());
        sandbox
    }

    /// The phase that the launch is in.
    pub fn phase(&self) -> (out: Phase)
        ensures
            out == self@.phase,
    {
        self.phase
    }

    /// The kind of failure, if the launch has failed.
    pub fn error(&self) -> (out: Option<SandboxError>)
        ensures
            out == self@.error,
    {
        self.error
    }

    /// The process id of the child, once the process has forked and this is
    /// the parent; 0 before, and in the child.
    pub fn child_pid(&self) -> (out: i32)
        ensures
            out == self@.child_pid,
    {
        self.child_pid
    }

    /// The directory that is, or will be, the root of the sandbox.
    pub fn root_dir(&self) -> (out: &String)
        ensures
            out@ == self@.root_dir,
    {
        &self.root_dir
    }

    /// The operations of the current phase, in the order in which they are
    /// to be performed.
    pub fn plan(&self) -> (out: Vec<Operation>)
        ensures
            actions(out@) == self@.plan(),
    {
        match self.phase {
            Phase::Channel => only(Operation::OpenPipe),
            Phase::Root => only(Operation::MakeTempDir),
            Phase::Setup => init_sandbox_root(self.root_dir.as_str()),
            Phase::Pull => only(
                Operation::PullImage {
                    name: self.image.name.clone(),
                    tag: self.image.tag.clone(),
                    into: String::from_str("/tmp/"),
                },
            ),
            Phase::Unpack => extract_layers(self.archives.as_slice(), self.root_dir.as_str()),
            Phase::Tidy => remove_archives(self.archives.as_slice()),
            Phase::Fork => only(Operation::Fork),
            Phase::Parent => only(Operation::CloseFd { fd: self.write_pipe }),
            Phase::Running => take_status(self.read_pipe),
            Phase::Child => enter_sandbox(self.root_dir.as_str(), self.read_pipe),
            Phase::Command => only(
                Operation::Execute {
                    command: self.command.clone(),
                    args: copy_texts(self.args.as_slice()),
                },
            ),
            Phase::Report => report_status(self.status, self.write_pipe),
            Phase::Finished => nothing(),
            Phase::Failed => nothing(),
        }
    }

    /// Fails the launch in its current phase.
    fn fail(&mut self)
        ensures
            final(self)@ == old(self)@.fail(),
    {
        let error = match self.phase {
            Phase::Pull => SandboxError::Registry,
            Phase::Unpack | Phase::Tidy => SandboxError::Extraction,
            Phase::Child | Phase::Command | Phase::Report => SandboxError::Launch,
            _ => SandboxError::Setup,
        };
        self.error = Some(error);
        self.phase = Phase::Failed;
    }

    /// Takes the outcome of the current phase and moves the launch on.
    pub fn advance(&mut self, outcome: Outcome)
        ensures
            final(self)@ == old(self)@.advance(outcome@),
    {
        match self.phase {
            Phase::Channel => match outcome {
                Outcome::Pipe { read, write } => {
                    self.read_pipe = read;
                    self.write_pipe = write;
                    self.phase = Phase::Root;
                },
                _ => self.fail(),
            },
            Phase::Root => match outcome {
                Outcome::Directory { path } => {
                    self.root_dir = path;
                    self.phase = Phase::Setup;
                },
                _ => self.fail(),
            },
            Phase::Setup => match outcome {
                Outcome::Done => {
                    self.phase = Phase::Pull;
                },
                _ => self.fail(),
            },
            Phase::Pull => match outcome {
                Outcome::Archives { paths } => {
                    self.archives = paths;
                    self.phase = Phase::Unpack;
                },
                _ => self.fail(),
            },
            Phase::Unpack => match outcome {
                Outcome::Done => {
                    self.phase = Phase::Tidy;
                },
                _ => self.fail(),
            },
            Phase::Tidy => match outcome {
                Outcome::Done => {
                    self.phase = Phase::Fork;
                },
                _ => self.fail(),
            },
            Phase::Fork => match outcome {
                Outcome::Parent { child } => {
                    self.child_pid = child;
                    self.phase = Phase::Parent;
                },
                Outcome::Child => {
                    self.phase = Phase::Child;
                },
                _ => self.fail(),
            },
            Phase::Parent => match outcome {
                Outcome::Done => {
                    self.phase = Phase::Running;
                },
                _ => self.fail(),
            },
            Phase::Child => match outcome {
                Outcome::Done => {
                    self.phase = Phase::Command;
                },
                _ => self.fail(),
            },
            Phase::Command => match outcome {
                Outcome::Exited { code } => {
                    self.status = ChildStatus::from_exit_code(code);
                    self.phase = Phase::Report;
                },
                Outcome::Failed => {
                    self.status = ChildStatus::from_exit_code(None);
                    self.phase = Phase::Report;
                },
                _ => self.fail(),
            },
            Phase::Report => match outcome {
                Outcome::Done => {
                    self.phase = Phase::Finished;
                },
                _ => self.fail(),
            },
            Phase::Running => {},
            Phase::Finished => {},
            Phase::Failed => {},
        }
    }

    /// Takes the status of the command from what the one read from the pipe
    /// gave. The status can be taken once, from a sandbox that runs; the
    /// sandbox is finished then.
    pub fn consume_output(&mut self, received: &[u8]) -> (out: Result<ChildStatus, ChannelError>)
        ensures
            old(self)@.phase == Phase::Running ==> out == received_status(received@)
                && final(self)@ == (Launch { phase: Phase::Finished, ..old(self)@ }),
            old(self)@.phase != Phase::Running ==> out == Err::<ChildStatus, ChannelError>(
                ChannelError::Closed,
            ) && final(self)@ == old(self)@,
    {
        match self.phase {
            Phase::Running => {
                self.phase = Phase::Finished;
                ChildStatus::decode(received)
            },
            _ => Err(ChannelError::Closed),
        }
    }
}

} // verus!
