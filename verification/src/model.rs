//! The records of the grading workflow around the sandbox core: students,
//! project templates, grades, and the single global configuration row that
//! carries the current grading state and the execution-result surface
//! (four text blobs, two exit codes, one derived integer grade).
//!
//! The core has no knowledge of how or where these records are persisted;
//! it only fills the result surface.

use vstd::prelude::*;

use crate::compose::opt_view;
use crate::harness::ExecutionResult;

verus! {

/// One student submission: its row id and the submission directory.
#[derive(Debug)]
pub struct Student {
    pub id: i32,
    pub path: String,
}

/// One project template: its row id, the template directory, and the two
/// default grades.
#[derive(Debug)]
pub struct Project {
    pub id: i32,
    pub path: String,
    pub manual_grade: i32,
    pub auto_grade: i32,
}

/// One committed grade of a student on a project.
#[derive(Debug)]
pub struct Grade {
    pub id: i32,
    pub student_id: i32,
    pub project_id: i32,
    pub manual_grade: i32,
    pub auto_grade: i32,
    pub comment: String,
}

/// The single global configuration row: the current grading state and the
/// execution-result surface of the last build and run.
#[derive(Debug)]
pub struct Configuration {
    pub id: i32,
    pub current_student: Option<i32>,
    pub current_project: Option<i32>,
    pub auto_grade: Option<i32>,
    pub manual_grade: Option<i32>,
    pub comment: Option<String>,
    pub base_image: String,
    pub compile_stdout: Option<String>,
    pub compile_stderr: Option<String>,
    pub compile_return: Option<i32>,
    pub run_stdout: Option<String>,
    pub run_stderr: Option<String>,
    pub run_return: Option<i32>,
}

/// A change set for the configuration row.
#[derive(Debug)]
pub struct ChangeConfig {
    pub id: i32,
    pub current_student: Option<i32>,
    pub current_project: Option<i32>,
    pub auto_grade: Option<i32>,
    pub manual_grade: Option<i32>,
    pub comment: Option<String>,
    pub base_image: Option<String>,
}

/// A change set for a grade row.
#[derive(Debug)]
pub struct ChangeGrade {
    pub student_id: Option<i32>,
    pub project_id: Option<i32>,
    pub manual_grade: Option<i32>,
    pub auto_grade: Option<i32>,
    pub comment: Option<String>,
}

/// A change set for a project row.
#[derive(Debug)]
pub struct ChangeProject {
    pub path: Option<String>,
    pub manual_grade: Option<i32>,
    pub auto_grade: Option<i32>,
}

/// A change set for a student row.
#[derive(Debug)]
pub struct ChangeStudent {
    pub path: Option<String>,
}

impl Configuration {
    /// The change set that initializes grading: configuration row `1`,
    /// carrying only the base image path.
    pub fn initialize(base_image: &str) -> (c: ChangeConfig)
        ensures
            c.id == 1,
            c.current_student is None,
            c.current_project is None,
            c.auto_grade is None,
            c.manual_grade is None,
            c.comment is None,
            opt_view(c.base_image) == Some(base_image@),
    {
        ChangeConfig {
            id: 1,
            current_student: None,
            current_project: None,
            auto_grade: None,
            manual_grade: None,
            comment: None,
            base_image: Some(String::from_str(base_image)),
        }
    }

    /// Records the build result into the result surface: both compile
    /// streams and the compile exit code; nothing else changes.
    pub fn record_build(&mut self, r: &ExecutionResult)
        ensures
            opt_view(final(self).compile_stdout) == Some(r.stdout@),
            opt_view(final(self).compile_stderr) == Some(r.stderr@),
            final(self).compile_return == r.exit.code,
            final(self).id == old(self).id,
            final(self).current_student == old(self).current_student,
            final(self).current_project == old(self).current_project,
            final(self).auto_grade == old(self).auto_grade,
            final(self).manual_grade == old(self).manual_grade,
            final(self).comment == old(self).comment,
            final(self).base_image == old(self).base_image,
            final(self).run_stdout == old(self).run_stdout,
            final(self).run_stderr == old(self).run_stderr,
            final(self).run_return == old(self).run_return,
    {
        self.compile_stdout = Some(r.stdout.clone());
        self.compile_stderr = Some(r.stderr.clone());
        self.compile_return = r.exit.code;
    }

    /// Records the run result into the result surface: both run streams,
    /// the run exit code, and the parsed automatic grade; nothing else
    /// changes.
    pub fn record_run(&mut self, r: &ExecutionResult)
        ensures
            opt_view(final(self).run_stdout) == Some(r.stdout@),
            opt_view(final(self).run_stderr) == Some(r.stderr@),
            final(self).run_return == r.exit.code,
            final(self).auto_grade == r.grade,
            final(self).id == old(self).id,
            final(self).current_student == old(self).current_student,
            final(self).current_project == old(self).current_project,
            final(self).manual_grade == old(self).manual_grade,
            final(self).comment == old(self).comment,
            final(self).base_image == old(self).base_image,
            final(self).compile_stdout == old(self).compile_stdout,
            final(self).compile_stderr == old(self).compile_stderr,
            final(self).compile_return == old(self).compile_return,
    {
        self.run_stdout = Some(r.stdout.clone());
        self.run_stderr = Some(r.stderr.clone());
        self.run_return = r.exit.code;
        self.auto_grade = r.grade;
    }
}

} // verus!
