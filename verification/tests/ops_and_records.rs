//! Command-line rendering of privileged operations, the unmount retry
//! policy, and the workflow records around the result surface.

use grading_sandbox::harness::build_result;
use grading_sandbox::harness::run_result;
use grading_sandbox::model::Configuration;
use grading_sandbox::ops::ExitStatus;
use grading_sandbox::ops::PrivOp;
use grading_sandbox::ops::argv;
use grading_sandbox::ops::should_retry_unmount;

fn blank_configuration() -> Configuration {
    Configuration {
        id: 1,
        current_student: Some(7),
        current_project: Some(3),
        auto_grade: None,
        manual_grade: Some(10),
        comment: Some(String::from("late")),
        base_image: String::from("base.squashfs"),
        compile_stdout: None,
        compile_stderr: None,
        compile_return: None,
        run_stdout: None,
        run_stderr: None,
        run_return: None,
    }
}

#[test]
fn image_mount_command_line() {
    let op = PrivOp::MountImage {
        image: String::from("base.squashfs"),
        target: String::from("/work/root"),
    };
    assert_eq!(
        argv(&op),
        vec![
            String::from("mount"),
            String::from("base.squashfs"),
            String::from("/work/root"),
            String::from("-t"),
            String::from("squashfs"),
            String::from("-o"),
            String::from("loop"),
        ]
    );
}

#[test]
fn overlay_mount_command_line() {
    let op = PrivOp::MountOverlay {
        lower: String::from("/templates/hw1"),
        upper: String::from("/work/u2"),
        work: String::from("/work/w2"),
        target: String::from("/work/root/project"),
    };
    assert_eq!(
        argv(&op),
        vec![
            String::from("mount"),
            String::from("-t"),
            String::from("overlay"),
            String::from("-o"),
            String::from("lowerdir=/templates/hw1,upperdir=/work/u2,workdir=/work/w2"),
            String::from("overlay"),
            String::from("/work/root/project"),
        ]
    );
}

#[test]
fn maintenance_command_lines() {
    assert_eq!(
        argv(&PrivOp::MakeDir { path: String::from("/work/root/project") }),
        vec![String::from("mkdir"), String::from("-p"), String::from("/work/root/project")]
    );
    assert_eq!(
        argv(&PrivOp::Unmount { path: String::from("/work/root") }),
        vec![String::from("umount"), String::from("-R"), String::from("/work/root")]
    );
    assert_eq!(
        argv(&PrivOp::RemoveTree { path: String::from("/work/u1") }),
        vec![String::from("rm"), String::from("-rf"), String::from("/work/u1")]
    );
}

#[test]
fn unmount_retry_is_bounded_until_success() {
    assert!(should_retry_unmount(1, false));
    assert!(!should_retry_unmount(1, true));
    assert!(!should_retry_unmount(2, false));
    assert!(!should_retry_unmount(2, true));
}

#[test]
fn exit_status_success_is_code_zero() {
    assert!(ExitStatus { code: Some(0) }.is_success());
    assert!(!ExitStatus { code: Some(1) }.is_success());
    assert!(!ExitStatus { code: None }.is_success());
}

#[test]
fn initialize_carries_only_the_base_image() {
    let change = Configuration::initialize("base.squashfs");
    assert_eq!(change.id, 1);
    assert_eq!(change.current_student, None);
    assert_eq!(change.current_project, None);
    assert_eq!(change.auto_grade, None);
    assert_eq!(change.manual_grade, None);
    assert_eq!(change.comment, None);
    assert_eq!(change.base_image, Some(String::from("base.squashfs")));
}

#[test]
fn recording_results_fills_only_the_result_surface() {
    let mut conf = blank_configuration();
    let build = build_result(
        String::from("compiled\n"),
        String::from("warning\n"),
        ExitStatus { code: Some(0) },
    );
    conf.record_build(&build);
    assert_eq!(conf.compile_stdout, Some(String::from("compiled\n")));
    assert_eq!(conf.compile_stderr, Some(String::from("warning\n")));
    assert_eq!(conf.compile_return, Some(0));
    assert_eq!(conf.run_stdout, None);
    assert_eq!(conf.auto_grade, None);
    assert_eq!(conf.comment, Some(String::from("late")));

    let run = run_result(
        String::from("OK\n[RESULT] 9/10\n"),
        String::from(""),
        ExitStatus { code: Some(0) },
    );
    conf.record_run(&run);
    assert_eq!(conf.run_stdout, Some(String::from("OK\n[RESULT] 9/10\n")));
    assert_eq!(conf.run_stderr, Some(String::from("")));
    assert_eq!(conf.run_return, Some(0));
    assert_eq!(conf.auto_grade, Some(9));
    assert_eq!(conf.compile_stdout, Some(String::from("compiled\n")));
    assert_eq!(conf.current_student, Some(7));
    assert_eq!(conf.current_project, Some(3));
    assert_eq!(conf.manual_grade, Some(10));
    assert_eq!(conf.base_image, String::from("base.squashfs"));
}

#[test]
fn failed_run_records_grade_zero() {
    let mut conf = blank_configuration();
    let run = run_result(
        String::from("OK\n[RESULT] 9/10\n"),
        String::from("crash"),
        ExitStatus { code: Some(139) },
    );
    conf.record_run(&run);
    assert_eq!(conf.run_return, Some(139));
    assert_eq!(conf.auto_grade, Some(0));
}
