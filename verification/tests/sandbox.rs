use container_launch::json::{Json, JsonNumber};
use container_launch::plan::{Mount, Operation};
use container_launch::sandbox::{
    create_dev_null, enter_sandbox, exit_code, extract_layers, init_sandbox_root, remove_archives,
    report_status, take_status, ChannelError, ChildStatus, Outcome, Phase, Sandbox,
    SandboxError, FAILURE_STATUS, STATUS_CAPACITY,
};

fn text(s: &str) -> String {
    s.to_string()
}

fn setup_operations(root: &str) -> Vec<Operation> {
    vec![
        Operation::Mount(Mount {
            source: text(root),
            target: text(root),
            fstype: text("none"),
            bind: true,
            recursive: true,
        }),
        Operation::CreateDirAll { path: format!("{}/dev", root) },
        Operation::MakeCharDevice {
            path: format!("{}/dev/null", root),
            mode: 0o666,
            major: 1,
            minor: 3,
        },
        Operation::CreateDirAll { path: format!("{}/tmp/", root) },
        Operation::Unmount { path: format!("{}/old_root", root) },
        Operation::CreateDirAll { path: format!("{}/old_root", root) },
    ]
}

fn child_operations(root: &str, read_pipe: i32) -> Vec<Operation> {
    vec![
        Operation::CloseFd { fd: read_pipe },
        Operation::Unshare { mount: true, pid: true },
        Operation::PivotRoot { new_root: text(root), put_old: format!("{}/old_root", root) },
        Operation::Unmount { path: text("/old_root") },
        Operation::RemoveDirAll { path: text("/old_root") },
        Operation::ChangeDir { path: text("/") },
    ]
}

/// A launch of `echo hi` from `alpine:latest`, brought to the fork.
fn launch_at_fork() -> Sandbox {
    let mut sandbox = Sandbox::run("alpine:latest", "echo", &[text("hi")]);
    sandbox.advance(Outcome::Pipe { read: 3, write: 4 });
    sandbox.advance(Outcome::Directory { path: text("/tmp/.tmpAbC") });
    sandbox.advance(Outcome::Done);
    sandbox.advance(Outcome::Archives { paths: vec![text("/tmp/aa"), text("/tmp/bb")] });
    sandbox.advance(Outcome::Done);
    sandbox.advance(Outcome::Done);
    assert_eq!(sandbox.phase(), Phase::Fork);
    sandbox
}

fn launch_at_command() -> Sandbox {
    let mut sandbox = launch_at_fork();
    sandbox.advance(Outcome::Child);
    sandbox.advance(Outcome::Done);
    assert_eq!(sandbox.phase(), Phase::Command);
    sandbox
}

fn running_sandbox() -> Sandbox {
    let mut sandbox = launch_at_fork();
    sandbox.advance(Outcome::Parent { child: 4321 });
    sandbox.advance(Outcome::Done);
    assert_eq!(sandbox.phase(), Phase::Running);
    sandbox
}

#[test]
fn status_message_is_one_json_object() {
    assert_eq!(ChildStatus { status: 7 }.encode(), "{\"status\":7}");
    assert_eq!(ChildStatus { status: 0 }.encode(), "{\"status\":0}");
    assert_eq!(ChildStatus { status: -1 }.encode(), "{\"status\":-1}");
    assert_eq!(ChildStatus { status: i32::MAX }.encode(), "{\"status\":2147483647}");
    assert_eq!(ChildStatus { status: i32::MIN }.encode(), "{\"status\":-2147483648}");
}

#[test]
fn status_message_fits_the_buffer() {
    assert!(ChildStatus { status: i32::MIN }.encode().len() <= STATUS_CAPACITY);
    assert_eq!(STATUS_CAPACITY, 1024);
}

#[test]
fn a_child_that_exits_with_7_is_read_as_7() {
    let message = ChildStatus::from_exit_code(Some(7)).encode();
    assert_eq!(ChildStatus::decode(message.as_bytes()), Ok(ChildStatus { status: 7 }));
}

#[test]
fn a_child_killed_by_a_signal_is_read_as_the_failure_status() {
    let status = ChildStatus::from_exit_code(None);
    assert_eq!(status, ChildStatus { status: -1 });
    assert_eq!(FAILURE_STATUS, -1);
    assert_eq!(ChildStatus::decode(status.encode().as_bytes()), Ok(ChildStatus { status: -1 }));
}

#[test]
fn every_status_comes_back_as_it_was_sent() {
    for status in [0, 1, -1, 7, 127, 255, 256, -128, 65535, i32::MAX, i32::MIN] {
        let sent = ChildStatus { status };
        assert_eq!(ChildStatus::decode(sent.encode().as_bytes()), Ok(sent));
    }
}

#[test]
fn nothing_received_is_a_missing_status() {
    assert_eq!(ChildStatus::decode(b""), Err(ChannelError::Missing));
}

#[test]
fn what_is_no_status_message_is_malformed() {
    let cases: [&[u8]; 10] = [
        b"garbage",
        b"{\"status\":",
        b"{}",
        b"{\"code\":7}",
        b"{\"status\":\"7\"}",
        b"{\"status\":7.5}",
        b"{\"status\":2147483648}",
        b"{\"status\":-2147483649}",
        b"{\"status\":null}",
        b"7",
    ];
    for received in cases {
        assert_eq!(ChildStatus::decode(received), Err(ChannelError::Malformed));
    }
}

#[test]
fn a_status_message_may_hold_spaces_and_more_members() {
    assert_eq!(
        ChildStatus::decode(b" { \"pid\" : 1, \"status\" : 42 }\n"),
        Ok(ChildStatus { status: 42 })
    );
    assert_eq!(ChildStatus::decode(b"[42]"), Ok(ChildStatus { status: 42 }));
    assert_eq!(ChildStatus::decode(b"[42, 1]"), Err(ChannelError::Malformed));
}

#[test]
fn exit_code_is_the_status_or_the_failure_status() {
    assert_eq!(exit_code(&Ok(ChildStatus { status: 7 })), 7);
    assert_eq!(exit_code(&Ok(ChildStatus { status: 0 })), 0);
    assert_eq!(exit_code(&Err(ChannelError::Missing)), -1);
    assert_eq!(exit_code(&Err(ChannelError::Malformed)), -1);
    assert_eq!(exit_code(&Err(ChannelError::Closed)), -1);
}

#[test]
fn the_null_device_is_character_device_1_3_open_to_all() {
    assert_eq!(
        create_dev_null("/r"),
        vec![
            Operation::CreateDirAll { path: text("/r/dev") },
            Operation::MakeCharDevice { path: text("/r/dev/null"), mode: 438, major: 1, minor: 3 },
        ]
    );
}

#[test]
fn the_root_is_bound_before_anything_is_made_in_it() {
    assert_eq!(init_sandbox_root("/tmp/.tmpAbC"), setup_operations("/tmp/.tmpAbC"));
}

#[test]
fn layers_are_unpacked_in_the_order_given() {
    let archives = [text("/tmp/cc"), text("/tmp/aa"), text("/tmp/bb")];
    assert_eq!(
        extract_layers(&archives, "/r"),
        vec![
            Operation::Extract { archive: text("/tmp/cc"), into: text("/r") },
            Operation::Extract { archive: text("/tmp/aa"), into: text("/r") },
            Operation::Extract { archive: text("/tmp/bb"), into: text("/r") },
        ]
    );
    assert_eq!(extract_layers(&[], "/r"), vec![]);
}

#[test]
fn archives_are_removed_in_the_order_given() {
    let archives = [text("/tmp/cc"), text("/tmp/aa")];
    assert_eq!(
        remove_archives(&archives),
        vec![
            Operation::RemoveFile { path: text("/tmp/cc") },
            Operation::RemoveFile { path: text("/tmp/aa") },
        ]
    );
}

#[test]
fn the_child_enters_the_sandbox_step_by_step() {
    assert_eq!(enter_sandbox("/r", 3), child_operations("/r", 3));
}

#[test]
fn the_report_is_written_then_the_pipe_closed_then_the_child_ends() {
    assert_eq!(
        report_status(ChildStatus { status: 7 }, 4),
        vec![
            Operation::Write { fd: 4, text: text("{\"status\":7}") },
            Operation::CloseFd { fd: 4 },
            Operation::Exit { code: 0 },
        ]
    );
}

#[test]
fn only_unmounts_may_fail() {
    for operation in setup_operations("/r").iter().chain(child_operations("/r", 3).iter()) {
        assert_eq!(operation.tolerated(), matches!(operation, Operation::Unmount { .. }));
    }
    assert!(!Operation::Fork.tolerated());
    assert!(!Operation::Execute { command: text("echo"), args: vec![] }.tolerated());
}

#[test]
fn a_launch_starts_with_the_pipe() {
    let sandbox = Sandbox::run("alpine:latest", "echo", &[text("hi")]);
    assert_eq!(sandbox.phase(), Phase::Channel);
    assert_eq!(sandbox.error(), None);
    assert_eq!(sandbox.plan(), vec![Operation::OpenPipe]);
    assert_eq!(sandbox.child_pid(), 0);
    assert_eq!(sandbox.root_dir(), "");
}

#[test]
fn echo_hi_in_alpine_is_launched_and_reports_0() {
    let mut parent = Sandbox::run("alpine:latest", "echo", &[text("hi")]);
    assert_eq!(parent.plan(), vec![Operation::OpenPipe]);
    parent.advance(Outcome::Pipe { read: 3, write: 4 });
    assert_eq!(parent.plan(), vec![Operation::MakeTempDir]);
    parent.advance(Outcome::Directory { path: text("/tmp/.tmpAbC") });
    assert_eq!(parent.root_dir(), "/tmp/.tmpAbC");
    assert_eq!(parent.plan(), setup_operations("/tmp/.tmpAbC"));
    parent.advance(Outcome::Done);
    assert_eq!(
        parent.plan(),
        vec![Operation::PullImage { name: text("alpine"), tag: text("latest"), into: text("/tmp/") }]
    );
    parent.advance(Outcome::Archives { paths: vec![text("/tmp/aa")] });
    assert_eq!(
        parent.plan(),
        vec![Operation::Extract { archive: text("/tmp/aa"), into: text("/tmp/.tmpAbC") }]
    );
    parent.advance(Outcome::Done);
    assert_eq!(parent.plan(), vec![Operation::RemoveFile { path: text("/tmp/aa") }]);
    parent.advance(Outcome::Done);
    assert_eq!(parent.plan(), vec![Operation::Fork]);

    let mut child = Sandbox::run("alpine:latest", "echo", &[text("hi")]);
    child.advance(Outcome::Pipe { read: 3, write: 4 });
    child.advance(Outcome::Directory { path: text("/tmp/.tmpAbC") });
    child.advance(Outcome::Done);
    child.advance(Outcome::Archives { paths: vec![text("/tmp/aa")] });
    child.advance(Outcome::Done);
    child.advance(Outcome::Done);
    child.advance(Outcome::Child);
    assert_eq!(child.plan(), child_operations("/tmp/.tmpAbC", 3));
    child.advance(Outcome::Done);
    assert_eq!(
        child.plan(),
        vec![Operation::Execute { command: text("echo"), args: vec![text("hi")] }]
    );
    child.advance(Outcome::Exited { code: Some(0) });
    let report = child.plan();
    assert_eq!(
        report,
        vec![
            Operation::Write { fd: 4, text: text("{\"status\":0}") },
            Operation::CloseFd { fd: 4 },
            Operation::Exit { code: 0 },
        ]
    );
    child.advance(Outcome::Done);
    assert_eq!(child.phase(), Phase::Finished);
    assert_eq!(child.plan(), vec![]);

    parent.advance(Outcome::Parent { child: 4321 });
    assert_eq!(parent.child_pid(), 4321);
    assert_eq!(parent.plan(), vec![Operation::CloseFd { fd: 4 }]);
    parent.advance(Outcome::Done);
    assert_eq!(parent.phase(), Phase::Running);
    assert_eq!(
        parent.plan(),
        vec![Operation::Read { fd: 3, capacity: 1024 }, Operation::CloseFd { fd: 3 }]
    );
    let sent = match &report[0] {
        Operation::Write { text, .. } => text.clone(),
        other => panic!("not a write: {:?}", other),
    };
    assert_eq!(parent.consume_output(sent.as_bytes()), Ok(ChildStatus { status: 0 }));
    assert_eq!(parent.phase(), Phase::Finished);
}

#[test]
fn a_command_that_cannot_be_run_is_reported_with_the_failure_status() {
    let mut child = launch_at_command();
    child.advance(Outcome::Failed);
    assert_eq!(child.phase(), Phase::Report);
    assert_eq!(child.error(), None);
    let report = child.plan();
    assert_eq!(report[0], Operation::Write { fd: 4, text: text("{\"status\":-1}") });
    let mut parent = running_sandbox();
    let outcome = parent.consume_output(b"{\"status\":-1}");
    assert_eq!(outcome, Ok(ChildStatus { status: -1 }));
    assert_eq!(exit_code(&outcome), -1);
}

#[test]
fn a_command_ended_by_a_signal_is_reported_with_the_failure_status() {
    let mut child = launch_at_command();
    child.advance(Outcome::Exited { code: None });
    assert_eq!(child.plan()[0], Operation::Write { fd: 4, text: text("{\"status\":-1}") });
}

#[test]
fn a_child_that_ends_without_a_report_leaves_the_parent_with_an_error() {
    let mut parent = running_sandbox();
    let outcome = parent.consume_output(b"");
    assert_eq!(outcome, Err(ChannelError::Missing));
    assert_eq!(exit_code(&outcome), FAILURE_STATUS);
    assert_eq!(parent.phase(), Phase::Finished);
}

#[test]
fn the_status_is_taken_once() {
    let mut parent = running_sandbox();
    assert_eq!(parent.consume_output(b"{\"status\":3}"), Ok(ChildStatus { status: 3 }));
    assert_eq!(parent.consume_output(b"{\"status\":3}"), Err(ChannelError::Closed));
    assert_eq!(parent.plan(), vec![]);
}

#[test]
fn the_status_cannot_be_taken_before_the_sandbox_runs() {
    let mut sandbox = launch_at_fork();
    assert_eq!(sandbox.consume_output(b"{\"status\":3}"), Err(ChannelError::Closed));
    assert_eq!(sandbox.phase(), Phase::Fork);
    let mut child = launch_at_command();
    assert_eq!(child.consume_output(b"{\"status\":3}"), Err(ChannelError::Closed));
    assert_eq!(child.phase(), Phase::Command);
}

#[test]
fn a_failure_in_each_phase_has_its_kind() {
    let outcomes_before = |count: usize| -> Sandbox {
        let mut sandbox = Sandbox::run("alpine", "true", &[]);
        let steps = vec![
            Outcome::Pipe { read: 3, write: 4 },
            Outcome::Directory { path: text("/r") },
            Outcome::Done,
            Outcome::Archives { paths: vec![text("/tmp/aa")] },
            Outcome::Done,
            Outcome::Done,
        ];
        for outcome in steps.into_iter().take(count) {
            sandbox.advance(outcome);
        }
        sandbox
    };
    let expected = [
        (Phase::Channel, SandboxError::Setup),
        (Phase::Root, SandboxError::Setup),
        (Phase::Setup, SandboxError::Setup),
        (Phase::Pull, SandboxError::Registry),
        (Phase::Unpack, SandboxError::Extraction),
        (Phase::Tidy, SandboxError::Extraction),
        (Phase::Fork, SandboxError::Setup),
    ];
    for (count, (phase, error)) in expected.into_iter().enumerate() {
        let mut sandbox = outcomes_before(count);
        assert_eq!(sandbox.phase(), phase);
        sandbox.advance(Outcome::Failed);
        assert_eq!(sandbox.phase(), Phase::Failed);
        assert_eq!(sandbox.error(), Some(error));
        assert_eq!(sandbox.plan(), vec![]);
    }
}

#[test]
fn a_failure_of_the_parent_or_the_child_after_the_fork_has_its_kind() {
    let mut parent = launch_at_fork();
    parent.advance(Outcome::Parent { child: 9 });
    parent.advance(Outcome::Failed);
    assert_eq!(parent.error(), Some(SandboxError::Setup));
    let mut child = launch_at_fork();
    child.advance(Outcome::Child);
    child.advance(Outcome::Failed);
    assert_eq!(child.phase(), Phase::Failed);
    assert_eq!(child.error(), Some(SandboxError::Launch));
    let mut reporting = launch_at_command();
    reporting.advance(Outcome::Exited { code: Some(1) });
    reporting.advance(Outcome::Failed);
    assert_eq!(reporting.error(), Some(SandboxError::Launch));
}

#[test]
fn a_failed_launch_stays_failed_and_never_runs_the_command() {
    let mut sandbox = Sandbox::run("alpine", "true", &[]);
    sandbox.advance(Outcome::Pipe { read: 3, write: 4 });
    sandbox.advance(Outcome::Failed);
    let outcomes = vec![
        Outcome::Done,
        Outcome::Directory { path: text("/r") },
        Outcome::Archives { paths: vec![] },
        Outcome::Child,
        Outcome::Parent { child: 1 },
        Outcome::Exited { code: Some(0) },
        Outcome::Pipe { read: 5, write: 6 },
        Outcome::Failed,
    ];
    for outcome in outcomes {
        sandbox.advance(outcome);
        assert_eq!(sandbox.phase(), Phase::Failed);
        assert_eq!(sandbox.error(), Some(SandboxError::Setup));
        assert_eq!(sandbox.plan(), vec![]);
    }
}

#[test]
fn an_outcome_that_the_phase_does_not_wait_for_fails_the_launch() {
    let mut sandbox = Sandbox::run("alpine", "true", &[]);
    sandbox.advance(Outcome::Done);
    assert_eq!(sandbox.phase(), Phase::Failed);
    let mut forking = launch_at_fork();
    forking.advance(Outcome::Done);
    assert_eq!(forking.phase(), Phase::Failed);
    assert_eq!(forking.error(), Some(SandboxError::Setup));
}

#[test]
fn a_running_sandbox_is_not_moved_by_outcomes() {
    let mut parent = running_sandbox();
    parent.advance(Outcome::Failed);
    parent.advance(Outcome::Done);
    assert_eq!(parent.phase(), Phase::Running);
    assert_eq!(parent.child_pid(), 4321);
}

#[test]
fn the_image_reference_of_a_launch_is_parsed() {
    let mut sandbox = Sandbox::run("ubuntu:22.04", "ls", &[text("-l"), text("/")]);
    sandbox.advance(Outcome::Pipe { read: 3, write: 4 });
    sandbox.advance(Outcome::Directory { path: text("/r") });
    sandbox.advance(Outcome::Done);
    assert_eq!(
        sandbox.plan(),
        vec![Operation::PullImage { name: text("ubuntu"), tag: text("22.04"), into: text("/tmp/") }]
    );
}

#[test]
fn layers_are_unpacked_in_the_order_of_the_manifest() {
    let text = "{\"schemaVersion\":2,\"mediaType\":\"m\",\"config\":{\"mediaType\":\"c\",\"size\":1,\"digest\":\"sha256:00\"},\"layers\":[{\"mediaType\":\"t\",\"size\":3,\"digest\":\"sha256:cc\"},{\"mediaType\":\"t\",\"size\":1,\"digest\":\"sha256:aa\"},{\"mediaType\":\"t\",\"size\":2,\"digest\":\"sha256:bb\"}]}";
    let manifest = container_launch::images::DockerManifest::parse(text.as_bytes()).unwrap();
    let pulls = container_launch::images::pull_image_layers(&manifest, "/tmp/").unwrap();
    let archives: Vec<String> = pulls.into_iter().map(|pull| pull.archive).collect();
    assert_eq!(
        extract_layers(&archives, "/r"),
        vec![
            Operation::Extract { archive: text_of("/tmp/cc"), into: text_of("/r") },
            Operation::Extract { archive: text_of("/tmp/aa"), into: text_of("/r") },
            Operation::Extract { archive: text_of("/tmp/bb"), into: text_of("/r") },
        ]
    );
}

fn text_of(s: &str) -> String {
    s.to_string()
}

#[test]
fn a_status_is_read_from_a_document() {
    let seven = Json::Number(JsonNumber { unsigned: Some(7), signed: Some(7) });
    let record = Json::Object(vec![(text("status"), seven)]);
    assert_eq!(ChildStatus::from_json(&record), Some(ChildStatus { status: 7 }));
    let minus = Json::Number(JsonNumber { unsigned: None, signed: Some(-3) });
    assert_eq!(ChildStatus::from_json(&Json::Array(vec![minus])), Some(ChildStatus { status: -3 }));
    let large = Json::Number(JsonNumber { unsigned: Some(2147483648), signed: Some(2147483648) });
    assert_eq!(ChildStatus::from_json(&Json::Object(vec![(text("status"), large)])), None);
    let fraction = Json::Number(JsonNumber { unsigned: None, signed: None });
    assert_eq!(ChildStatus::from_json(&Json::Object(vec![(text("status"), fraction)])), None);
    assert_eq!(ChildStatus::from_json(&Json::Object(vec![])), None);
    assert_eq!(ChildStatus::from_json(&Json::Null), None);
}

#[test]
fn the_status_is_taken_by_one_read() {
    assert_eq!(
        take_status(3),
        vec![Operation::Read { fd: 3, capacity: 1024 }, Operation::CloseFd { fd: 3 }]
    );
}
