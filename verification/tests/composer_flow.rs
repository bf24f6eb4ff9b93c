//! Driving the layer composer end to end against a simulated driver:
//! full construction, injected failures with rollback, and teardown.

use grading_sandbox::SandboxError;
use grading_sandbox::compose::Action;
use grading_sandbox::compose::Composer;
use grading_sandbox::compose::Event;
use grading_sandbox::compose::Step;
use grading_sandbox::container::Container;
use grading_sandbox::ops::ExitStatus;
use grading_sandbox::ops::PrivOp;

/// A simulated filesystem: the stack of live mounts (innermost last) and
/// the set of present scratch directories.  Unmounting anything but the
/// innermost mount is a test failure: the real kernel would refuse it.
struct FakeFs {
    mounts: Vec<String>,
    dirs: Vec<String>,
}

impl FakeFs {
    fn new() -> FakeFs {
        FakeFs { mounts: Vec::new(), dirs: Vec::new() }
    }

    fn add_dir(&mut self, path: &str) {
        self.dirs.push(String::from(path));
    }

    fn apply(&mut self, op: &PrivOp) {
        match op {
            PrivOp::MountImage { target, .. } => self.mounts.push(target.clone()),
            PrivOp::MountOverlay { target, .. } => self.mounts.push(target.clone()),
            PrivOp::MakeDir { .. } => {}
            PrivOp::Unmount { path } => {
                assert_eq!(
                    self.mounts.last(),
                    Some(path),
                    "unmount out of last-in-first-out order"
                );
                self.mounts.pop();
            }
            PrivOp::RemoveTree { path } => {
                self.dirs.retain(|d| d != path);
            }
        }
    }

    fn is_empty(&self) -> bool {
        self.mounts.is_empty() && self.dirs.is_empty()
    }
}

fn expect_need(s: Step) -> Action {
    match s {
        Step::Need(a) => a,
        _ => panic!("expected the composer to ask for another action"),
    }
}

fn expect_priv(a: Action) -> PrivOp {
    match a {
        Action::Privileged(op) => op,
        _ => panic!("expected a privileged operation"),
    }
}

fn exit(code: i32) -> Event {
    Event::Exit { status: ExitStatus { code: Some(code) } }
}

/// Drives construction with every operation succeeding, mirroring each
/// success in `fs`, up to the student overlay: the returned composer is
/// waiting on that overlay's exit status.
fn drive_until_student_overlay(fs: &mut FakeFs) -> Composer {
    let mut c = Composer::new(
        String::from("base.squashfs"),
        String::from("/subs/alice"),
        String::from("/templates/hw1"),
    );
    assert!(matches!(c.next_action(), Action::DeriveCredential));
    let s = c.step(Event::Credential {
        display: String::from(":0"),
        path: String::from("/tmp/magic"),
    });
    assert!(matches!(expect_need(s), Action::AllocDir));

    fs.add_dir("/work/root");
    let s = c.step(Event::Dir { path: String::from("/work/root") });
    let op = expect_priv(expect_need(s));
    assert_eq!(
        op,
        PrivOp::MountImage {
            image: String::from("base.squashfs"),
            target: String::from("/work/root"),
        }
    );
    fs.apply(&op);
    let s = c.step(exit(0));
    assert!(matches!(expect_need(s), Action::AllocDir));

    fs.add_dir("/work/u1");
    let s = c.step(Event::Dir { path: String::from("/work/u1") });
    assert!(matches!(expect_need(s), Action::AllocDir));
    fs.add_dir("/work/w1");
    let s = c.step(Event::Dir { path: String::from("/work/w1") });
    let op = expect_priv(expect_need(s));
    assert_eq!(
        op,
        PrivOp::MountOverlay {
            lower: String::from("/work/root"),
            upper: String::from("/work/u1"),
            work: String::from("/work/w1"),
            target: String::from("/work/root"),
        }
    );
    fs.apply(&op);
    let s = c.step(exit(0));
    let op = expect_priv(expect_need(s));
    assert_eq!(op, PrivOp::MakeDir { path: String::from("/work/root/project") });
    fs.apply(&op);
    let s = c.step(exit(0));
    assert!(matches!(expect_need(s), Action::AllocDir));

    fs.add_dir("/work/u2");
    let s = c.step(Event::Dir { path: String::from("/work/u2") });
    assert!(matches!(expect_need(s), Action::AllocDir));
    fs.add_dir("/work/w2");
    let s = c.step(Event::Dir { path: String::from("/work/w2") });
    let op = expect_priv(expect_need(s));
    assert_eq!(
        op,
        PrivOp::MountOverlay {
            lower: String::from("/templates/hw1"),
            upper: String::from("/work/u2"),
            work: String::from("/work/w2"),
            target: String::from("/work/root/project"),
        }
    );
    fs.apply(&op);
    let s = c.step(exit(0));
    let op = expect_priv(expect_need(s));
    assert_eq!(op, PrivOp::MakeDir { path: String::from("/work/root/project/student") });
    fs.apply(&op);
    let s = c.step(exit(0));
    assert!(matches!(expect_need(s), Action::AllocDir));

    fs.add_dir("/work/u3");
    let s = c.step(Event::Dir { path: String::from("/work/u3") });
    assert!(matches!(expect_need(s), Action::AllocDir));
    fs.add_dir("/work/w3");
    let s = c.step(Event::Dir { path: String::from("/work/w3") });
    let op = expect_priv(expect_need(s));
    assert_eq!(
        op,
        PrivOp::MountOverlay {
            lower: String::from("/subs/alice"),
            upper: String::from("/work/u3"),
            work: String::from("/work/w3"),
            target: String::from("/work/root/project/student"),
        }
    );
    fs.apply(&op);
    c
}

fn construct(fs: &mut FakeFs) -> Container {
    let mut c = drive_until_student_overlay(fs);
    match c.step(exit(0)) {
        Step::Ready(container) => container,
        _ => panic!("expected construction to complete"),
    }
}

#[test]
fn scenario_full_construction_and_run() {
    let mut fs = FakeFs::new();
    let container = construct(&mut fs);
    assert_eq!(container.root, "/work/root");
    assert_eq!(container.display, ":0");
    assert_eq!(container.credential, "/tmp/magic");
    assert_eq!(container.overlays.len(), 3);
    assert!(container.overlays.iter().all(|m| m.mounted));

    let cmd = container.cmd();
    assert_eq!(
        cmd,
        vec![
            String::from("systemd-nspawn"),
            String::from("--quiet"),
            String::from("-D"),
            String::from("/work/root"),
            String::from("--bind=/tmp/.X11-unix"),
            String::from("--bind"),
            String::from("/tmp/magic"),
            String::from("-E"),
            String::from("DISPLAY=:0"),
            String::from("-E"),
            String::from("XAUTHORITY=/tmp/magic"),
            String::from("--as-pid2"),
            String::from("--chdir=/project"),
        ]
    );

    let build_cmd = grading_sandbox::harness::build_command(&container);
    assert_eq!(build_cmd.len(), 15);
    assert_eq!(build_cmd[13], "sh");
    assert_eq!(build_cmd[14], "build.sh");
    let run_cmd = grading_sandbox::harness::run_command(&container);
    assert_eq!(run_cmd[14], "run.sh");

    let run = grading_sandbox::harness::run_result(
        String::from("OK\n[RESULT] 9/10\n"),
        String::new(),
        ExitStatus { code: Some(0) },
    );
    assert_eq!(run.exit.code, Some(0));
    assert_eq!(run.grade, Some(9));
}

#[test]
fn scenario_project_overlay_failure_rolls_back() {
    let mut fs = FakeFs::new();
    let mut c = Composer::new(
        String::from("base.squashfs"),
        String::from("/subs/alice"),
        String::from("/templates/hw1"),
    );
    let s = c.step(Event::Credential {
        display: String::from(":0"),
        path: String::from("/tmp/magic"),
    });
    assert!(matches!(expect_need(s), Action::AllocDir));
    fs.add_dir("/work/root");
    let s = c.step(Event::Dir { path: String::from("/work/root") });
    fs.apply(&expect_priv(expect_need(s)));
    let s = c.step(exit(0));
    assert!(matches!(expect_need(s), Action::AllocDir));
    fs.add_dir("/work/u1");
    let s = c.step(Event::Dir { path: String::from("/work/u1") });
    assert!(matches!(expect_need(s), Action::AllocDir));
    fs.add_dir("/work/w1");
    let s = c.step(Event::Dir { path: String::from("/work/w1") });
    fs.apply(&expect_priv(expect_need(s)));
    let s = c.step(exit(0));
    fs.apply(&expect_priv(expect_need(s)));
    let s = c.step(exit(0));
    assert!(matches!(expect_need(s), Action::AllocDir));
    fs.add_dir("/work/u2");
    let s = c.step(Event::Dir { path: String::from("/work/u2") });
    assert!(matches!(expect_need(s), Action::AllocDir));
    fs.add_dir("/work/w2");
    let s = c.step(Event::Dir { path: String::from("/work/w2") });
    let op = expect_priv(expect_need(s));
    assert!(matches!(op, PrivOp::MountOverlay { .. }));

    // The project-overlay mount fails; nothing was mounted by it.
    match c.step(exit(32)) {
        Step::Abort { rollback, error } => {
            assert_eq!(error, SandboxError::PrivilegeOperation { exit_code: Some(32) });
            assert_eq!(
                rollback,
                vec![
                    PrivOp::Unmount { path: String::from("/work/root") },
                    PrivOp::Unmount { path: String::from("/work/root") },
                    PrivOp::RemoveTree { path: String::from("/work/w2") },
                    PrivOp::RemoveTree { path: String::from("/work/u2") },
                    PrivOp::RemoveTree { path: String::from("/work/w1") },
                    PrivOp::RemoveTree { path: String::from("/work/u1") },
                    PrivOp::RemoveTree { path: String::from("/work/root") },
                ]
            );
            for op in &rollback {
                fs.apply(op);
            }
        }
        _ => panic!("expected the failed overlay to abort construction"),
    }
    assert!(fs.is_empty(), "a failed construction must leak nothing");
}

#[test]
fn rollback_at_every_failure_point_leaks_nothing() {
    // Inject a failure at each privileged step of the sequence in turn and
    // replay the rollback against the simulated filesystem.
    for fail_at in 0..6 {
        let mut fs = FakeFs::new();
        let mut c = Composer::new(
            String::from("base.squashfs"),
            String::from("/subs/alice"),
            String::from("/templates/hw1"),
        );
        let mut step = c.step(Event::Credential {
            display: String::from(":0"),
            path: String::from("/tmp/magic"),
        });
        let mut dirs_made = 0;
        let mut priv_done = 0;
        let rollback = loop {
            match step {
                Step::Need(Action::AllocDir) => {
                    let path = format!("/work/d{}", dirs_made);
                    dirs_made += 1;
                    fs.add_dir(&path);
                    step = c.step(Event::Dir { path });
                }
                Step::Need(Action::Privileged(op)) => {
                    if priv_done == fail_at {
                        step = c.step(exit(1));
                    } else {
                        fs.apply(&op);
                        priv_done += 1;
                        step = c.step(exit(0));
                    }
                }
                Step::Need(Action::DeriveCredential) => {
                    panic!("the credential is derived before any mount work")
                }
                Step::Abort { rollback, error } => {
                    assert_eq!(error, SandboxError::PrivilegeOperation { exit_code: Some(1) });
                    break rollback;
                }
                Step::Ready(_) => panic!("an injected failure cannot complete"),
            }
        };
        for op in &rollback {
            fs.apply(op);
        }
        assert!(fs.is_empty(), "failure point {} leaked resources", fail_at);
    }
}

#[test]
fn credential_failure_aborts_before_any_mount_work() {
    let mut c = Composer::new(
        String::from("base.squashfs"),
        String::from("/subs/alice"),
        String::from("/templates/hw1"),
    );
    assert!(matches!(c.next_action(), Action::DeriveCredential));
    match c.step(Event::Failed { error: SandboxError::Environment }) {
        Step::Abort { rollback, error } => {
            assert_eq!(error, SandboxError::Environment);
            assert!(rollback.is_empty());
        }
        _ => panic!("a missing display identifier must abort construction"),
    }
}

#[test]
fn teardown_is_lifo_complete_and_idempotent() {
    let mut fs = FakeFs::new();
    let mut container = construct(&mut fs);

    let ops = container.clean_up();
    assert_eq!(
        ops,
        vec![
            PrivOp::Unmount { path: String::from("/work/root/project/student") },
            PrivOp::Unmount { path: String::from("/work/root/project") },
            PrivOp::Unmount { path: String::from("/work/root") },
            PrivOp::Unmount { path: String::from("/work/root") },
            PrivOp::RemoveTree { path: String::from("/work/w3") },
            PrivOp::RemoveTree { path: String::from("/work/u3") },
            PrivOp::RemoveTree { path: String::from("/work/w2") },
            PrivOp::RemoveTree { path: String::from("/work/u2") },
            PrivOp::RemoveTree { path: String::from("/work/w1") },
            PrivOp::RemoveTree { path: String::from("/work/u1") },
            PrivOp::RemoveTree { path: String::from("/work/root") },
        ]
    );
    // The FakeFs::apply assertion checks the unmounts run innermost-first.
    for op in &ops {
        fs.apply(op);
    }
    assert!(fs.is_empty(), "teardown must release every mount and directory");
    assert!(container.torn_down);
    assert!(container.overlays.iter().all(|m| !m.mounted));

    // A second teardown emits nothing: no further filesystem mutation.
    let again = container.clean_up();
    assert!(again.is_empty());
}
