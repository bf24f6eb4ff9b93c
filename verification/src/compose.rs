//! The layer composer: builds the full sandbox root as a fixed, strictly
//! ordered sequence of steps, each nesting inside the one before it.
//!
//! The composer is an event-driven state machine.  It never performs an
//! operation itself: [`Composer::next_action`] says what the driver must do
//! next — derive the scoped display credential, allocate a fresh scratch
//! directory, or perform one privileged operation — and [`Composer::step`]
//! consumes the outcome and answers with the next step.  Any failure after
//! the credential phase aborts construction with a rollback plan covering
//! every resource created so far, so that no mount or directory survives a
//! failed construction.
//!
//! The order is load-bearing: the credential is derived first (the cheapest
//! failure, before any mount work), then the base image is loop-mounted
//! read-only at a fresh root, the root is overlaid onto itself (the base
//! image is immutable, later steps must write into it), the project
//! directory is created and overlaid with the project template, and the
//! student directory is created inside it and overlaid with the student
//! submission.

use vstd::prelude::*;

use crate::SandboxError;
use crate::container::Container;
use crate::container::ContainerV;
use crate::container::MountPointV;
use crate::effects::FsModel;
use crate::effects::unmounts_in_lifo_order;
use crate::ops::ExitStatus;
use crate::ops::MountPoint;
use crate::ops::OpV;
use crate::ops::OverlaySpec;
use crate::ops::PrivOp;
use crate::ops::op_views;
use crate::ops::overlay_op;
use crate::ops::rollback_ops;
use crate::ops::seq_views;
use crate::ops::spec_rollback;

verus! {

/// Where construction stands: which action the composer is waiting on.
#[derive(Clone, Copy, Debug, PartialEq, Eq)]
pub enum Phase {
    /// Deriving the scoped display credential (before any mount work).
    Credential,
    /// Allocating the fresh root directory.
    RootDir,
    /// Loop-mounting the base image read-only at the root.
    BaseMount,
    /// Allocating the upper scratch directory of the root self-overlay.
    RootUpper,
    /// Allocating the work scratch directory of the root self-overlay.
    RootWork,
    /// Overlaying the root onto itself.
    RootOverlay,
    /// Creating `<root>/project`.
    ProjectDir,
    /// Allocating the upper scratch directory of the project overlay.
    ProjectUpper,
    /// Allocating the work scratch directory of the project overlay.
    ProjectWork,
    /// Overlaying the project template onto `<root>/project`.
    ProjectOverlay,
    /// Creating `<root>/project/student`.
    StudentDir,
    /// Allocating the upper scratch directory of the student overlay.
    StudentUpper,
    /// Allocating the work scratch directory of the student overlay.
    StudentWork,
    /// Overlaying the student submission onto `<root>/project/student`.
    StudentOverlay,
    /// Construction finished; the container has been handed out.
    Complete,
    /// Construction failed; the rollback plan has been handed out.
    Aborted,
}

/// What the driver must do next.
#[derive(Debug)]
pub enum Action {
    /// Derive the scoped display credential; report `Credential` or
    /// `Failed`.
    DeriveCredential,
    /// Allocate a fresh scratch directory beside the working area; report
    /// `Dir` or `Failed`.
    AllocDir,
    /// Perform one privileged operation; report `Exit` or `Failed`.
    Privileged(PrivOp),
}

/// The mathematical image of an [`Action`].
#[verifier::ext_equal]
pub enum ActionV {
    DeriveCredential,
    AllocDir,
    Privileged(OpV),
}

impl View for Action {
    type V = ActionV;

    open spec fn view(&self) -> ActionV {
        match self {
            Action::DeriveCredential => ActionV::DeriveCredential,
            Action::AllocDir => ActionV::AllocDir,
            Action::Privileged(op) => ActionV::Privileged(op@),
        }
    }
}

/// What the driver reports back: the outcome of the requested action.
#[derive(Debug)]
pub enum Event {
    /// The scoped credential was derived: the display identifier and the
    /// path of the container-private credential file.
    Credential { display: String, path: String },
    /// A fresh scratch directory was allocated at `path`.
    Dir { path: String },
    /// The privileged operation finished with this exit status.
    Exit { status: ExitStatus },
    /// The requested action could not be performed at all.
    Failed { error: SandboxError },
}

/// The mathematical image of an [`Event`].
#[verifier::ext_equal]
pub enum EventV {
    Credential { display: Seq<char>, path: Seq<char> },
    Dir { path: Seq<char> },
    Exit { status: ExitStatus },
    Failed { error: SandboxError },
}

impl View for Event {
    type V = EventV;

    open spec fn view(&self) -> EventV {
        match self {
            Event::Credential { display, path } => EventV::Credential {
                display: display@,
                path: path@,
            },
            Event::Dir { path } => EventV::Dir { path: path@ },
            Event::Exit { status } => EventV::Exit { status: *status },
            Event::Failed { error } => EventV::Failed { error: *error },
        }
    }
}

/// The composer's answer to an event.
#[derive(Debug)]
pub enum Step {
    /// Construction goes on: the driver must perform this action next.
    Need(Action),
    /// Construction is complete: the fully built container.
    Ready(Container),
    /// Construction failed: perform the rollback plan best-effort, then
    /// surface the error.
    Abort { rollback: Vec<PrivOp>, error: SandboxError },
}

/// The mathematical image of a [`Step`].
#[verifier::ext_equal]
pub enum StepV {
    Need(ActionV),
    Ready(ContainerV),
    Abort { rollback: Seq<OpV>, error: SandboxError },
}

impl View for Step {
    type V = StepV;

    open spec fn view(&self) -> StepV {
        match self {
            Step::Need(a) => StepV::Need(a@),
            Step::Ready(c) => StepV::Ready(c@),
            Step::Abort { rollback, error } => StepV::Abort {
                rollback: op_views(rollback@),
                error: *error,
            },
        }
    }
}

/// The construction state machine: the inputs of the construction and the
/// resources recorded so far — mount targets and allocated directories,
/// each in creation order.
#[derive(Debug)]
pub struct Composer {
    pub phase: Phase,
    pub image: String,
    pub student_dir: String,
    pub project_dir: String,
    pub display: Option<String>,
    pub credential: Option<String>,
    pub mounts: Vec<String>,
    pub dirs: Vec<String>,
}

/// The mathematical image of a [`Composer`].
#[verifier::ext_equal]
pub struct ComposerV {
    pub phase: Phase,
    pub image: Seq<char>,
    pub student_dir: Seq<char>,
    pub project_dir: Seq<char>,
    pub display: Option<Seq<char>>,
    pub credential: Option<Seq<char>>,
    pub mounts: Seq<Seq<char>>,
    pub dirs: Seq<Seq<char>>,
}

pub open spec fn opt_view(o: Option<String>) -> Option<Seq<char>> {
    match o {
        Some(s) => Some(s@),
        None => None,
    }
}

impl View for Composer {
    type V = ComposerV;

    open spec fn view(&self) -> ComposerV {
        ComposerV {
            phase: self.phase,
            image: self.image@,
            student_dir: self.student_dir@,
            project_dir: self.project_dir@,
            display: opt_view(self.display),
            credential: opt_view(self.credential),
            mounts: seq_views(self.mounts@),
            dirs: seq_views(self.dirs@),
        }
    }
}

/// The phase reached after the current action succeeds.
pub open spec fn next_phase(p: Phase) -> Phase {
    match p {
        Phase::Credential => Phase::RootDir,
        Phase::RootDir => Phase::BaseMount,
        Phase::BaseMount => Phase::RootUpper,
        Phase::RootUpper => Phase::RootWork,
        Phase::RootWork => Phase::RootOverlay,
        Phase::RootOverlay => Phase::ProjectDir,
        Phase::ProjectDir => Phase::ProjectUpper,
        Phase::ProjectUpper => Phase::ProjectWork,
        Phase::ProjectWork => Phase::ProjectOverlay,
        Phase::ProjectOverlay => Phase::StudentDir,
        Phase::StudentDir => Phase::StudentUpper,
        Phase::StudentUpper => Phase::StudentWork,
        Phase::StudentWork => Phase::StudentOverlay,
        Phase::StudentOverlay => Phase::Complete,
        Phase::Complete => Phase::Complete,
        Phase::Aborted => Phase::Aborted,
    }
}

/// Whether the composer, in this phase, is waiting for a scratch
/// directory.
pub open spec fn expects_dir(p: Phase) -> bool {
    match p {
        Phase::RootDir | Phase::RootUpper | Phase::RootWork | Phase::ProjectUpper
            | Phase::ProjectWork | Phase::StudentUpper | Phase::StudentWork => true,
        _ => false,
    }
}

/// Whether the composer, in this phase, is waiting for the exit status of
/// a privileged operation.
pub open spec fn expects_exit(p: Phase) -> bool {
    match p {
        Phase::BaseMount | Phase::RootOverlay | Phase::ProjectDir | Phase::ProjectOverlay
            | Phase::StudentDir | Phase::StudentOverlay => true,
        _ => false,
    }
}

/// How many directories have been allocated on entry to each phase.
pub open spec fn dirs_on_entry(p: Phase) -> int {
    match p {
        Phase::Credential | Phase::RootDir => 0,
        Phase::BaseMount | Phase::RootUpper => 1,
        Phase::RootWork => 2,
        Phase::RootOverlay | Phase::ProjectDir | Phase::ProjectUpper => 3,
        Phase::ProjectWork => 4,
        Phase::ProjectOverlay | Phase::StudentDir | Phase::StudentUpper => 5,
        Phase::StudentWork => 6,
        Phase::StudentOverlay => 7,
        Phase::Complete | Phase::Aborted => 0,
    }
}

impl ComposerV {
    /// The root directory: the first allocation, target of the base mount.
    pub open spec fn root(self) -> Seq<char> {
        self.dirs[0]
    }

    /// The project overlay's target, nested under the root.
    pub open spec fn project_target(self) -> Seq<char> {
        self.root() + "/project"@
    }

    /// The student overlay's target, nested under the project target.
    pub open spec fn student_target(self) -> Seq<char> {
        self.root() + "/project/student"@
    }

    pub open spec fn in_progress(self) -> bool {
        self.phase != Phase::Complete && self.phase != Phase::Aborted
    }

    pub open spec fn has_credential(self) -> bool {
        self.display is Some && self.credential is Some
    }

    /// The mount targets recorded on entry to each phase.
    pub open spec fn mounts_on_entry(self) -> Seq<Seq<char>> {
        match self.phase {
            Phase::Credential | Phase::RootDir | Phase::BaseMount => Seq::empty(),
            Phase::RootUpper | Phase::RootWork | Phase::RootOverlay => seq![self.root()],
            Phase::ProjectDir | Phase::ProjectUpper | Phase::ProjectWork
                | Phase::ProjectOverlay => seq![self.root(), self.root()],
            Phase::StudentDir | Phase::StudentUpper | Phase::StudentWork
                | Phase::StudentOverlay => seq![
                self.root(),
                self.root(),
                self.project_target(),
            ],
            Phase::Complete | Phase::Aborted => Seq::empty(),
        }
    }

    /// Well-formedness: the recorded resources match the phase.
    pub open spec fn wf(self) -> bool {
        match self.phase {
            Phase::Complete | Phase::Aborted => true,
            Phase::Credential => self.display is None && self.credential is None
                && self.mounts.len() == 0 && self.dirs.len() == 0,
            _ => self.has_credential() && self.dirs.len() == dirs_on_entry(self.phase) && (
            self.mounts =~= self.mounts_on_entry()),
        }
    }

    /// Which events the composer accepts in its current phase: the outcome
    /// of the action it asked for, or the report that the action could not
    /// be performed.
    pub open spec fn accepts(self, ev: EventV) -> bool {
        match ev {
            EventV::Failed { .. } => true,
            EventV::Credential { .. } => self.phase == Phase::Credential,
            EventV::Dir { .. } => expects_dir(self.phase),
            EventV::Exit { .. } => expects_exit(self.phase),
        }
    }

    /// The action the composer is waiting on in its current phase.
    pub open spec fn spec_action(self) -> ActionV
        recommends
            self.wf(),
            self.in_progress(),
    {
        match self.phase {
            Phase::Credential => ActionV::DeriveCredential,
            Phase::RootDir | Phase::RootUpper | Phase::RootWork | Phase::ProjectUpper
                | Phase::ProjectWork | Phase::StudentUpper | Phase::StudentWork => ActionV::AllocDir,
            Phase::BaseMount => ActionV::Privileged(
                OpV::MountImage { image: self.image, target: self.root() },
            ),
            Phase::RootOverlay => ActionV::Privileged(
                OpV::MountOverlay {
                    lower: self.root(),
                    upper: self.dirs[1],
                    work: self.dirs[2],
                    target: self.root(),
                },
            ),
            Phase::ProjectDir => ActionV::Privileged(OpV::MakeDir { path: self.project_target() }),
            Phase::ProjectOverlay => ActionV::Privileged(
                OpV::MountOverlay {
                    lower: self.project_dir,
                    upper: self.dirs[3],
                    work: self.dirs[4],
                    target: self.project_target(),
                },
            ),
            Phase::StudentDir => ActionV::Privileged(
                OpV::MakeDir { path: self.student_target() },
            ),
            Phase::StudentOverlay => ActionV::Privileged(
                OpV::MountOverlay {
                    lower: self.student_dir,
                    upper: self.dirs[5],
                    work: self.dirs[6],
                    target: self.student_target(),
                },
            ),
            Phase::Complete | Phase::Aborted => ActionV::AllocDir,
        }
    }

    /// The state after construction fails.
    pub open spec fn aborted(self) -> ComposerV {
        ComposerV { phase: Phase::Aborted, ..self }
    }

    /// The container handed out when the last overlay succeeds: it owns
    /// the base mount at the root, the three overlays in creation order,
    /// and the scoped credential.
    pub open spec fn spec_container(self) -> ContainerV
        recommends
            self.phase == Phase::StudentOverlay,
            self.wf(),
    {
        ContainerV {
            root: self.root(),
            display: match self.display {
                Some(d) => d,
                None => Seq::empty(),
            },
            credential: match self.credential {
                Some(c) => c,
                None => Seq::empty(),
            },
            overlays: seq![
                MountPointV {
                    target: self.root(),
                    upper: self.dirs[1],
                    work: self.dirs[2],
                    mounted: true,
                },
                MountPointV {
                    target: self.project_target(),
                    upper: self.dirs[3],
                    work: self.dirs[4],
                    mounted: true,
                },
                MountPointV {
                    target: self.student_target(),
                    upper: self.dirs[5],
                    work: self.dirs[6],
                    mounted: true,
                },
            ],
            torn_down: false,
        }
    }
}

/// The transition function of the construction machine: from a state and
/// an event to the next state and the composer's answer.
///
/// A `Failed` event, or a nonzero exit of a privileged operation, aborts
/// construction; the answer then carries the rollback plan over every
/// mount and directory recorded so far.  A successful outcome records the
/// resource it created (mounts record their target; directory allocations
/// record their path; a created subdirectory lives inside the overlay and
/// needs no record) and advances to the next phase of the fixed sequence.
pub open spec fn spec_step(pre: ComposerV, ev: EventV) -> (ComposerV, StepV)
    recommends
        pre.wf(),
        pre.in_progress(),
        pre.accepts(ev),
{
    match ev {
        EventV::Failed { error } => (
            pre.aborted(),
            StepV::Abort { rollback: spec_rollback(pre.mounts, pre.dirs), error },
        ),
        EventV::Credential { display, path } => {
            let post = ComposerV {
                phase: Phase::RootDir,
                display: Some(display),
                credential: Some(path),
                ..pre
            };
            (post, StepV::Need(post.spec_action()))
        },
        EventV::Dir { path } => {
            let post = ComposerV {
                phase: next_phase(pre.phase),
                dirs: pre.dirs.push(path),
                ..pre
            };
            (post, StepV::Need(post.spec_action()))
        },
        EventV::Exit { status } => {
            if !status.success() {
                (
                    pre.aborted(),
                    StepV::Abort {
                        rollback: spec_rollback(pre.mounts, pre.dirs),
                        error: SandboxError::PrivilegeOperation { exit_code: status.code },
                    },
                )
            } else {
                match pre.phase {
                    Phase::BaseMount | Phase::RootOverlay => {
                        let post = ComposerV {
                            phase: next_phase(pre.phase),
                            mounts: pre.mounts.push(pre.root()),
                            ..pre
                        };
                        (post, StepV::Need(post.spec_action()))
                    },
                    Phase::ProjectOverlay => {
                        let post = ComposerV {
                            phase: next_phase(pre.phase),
                            mounts: pre.mounts.push(pre.project_target()),
                            ..pre
                        };
                        (post, StepV::Need(post.spec_action()))
                    },
                    Phase::ProjectDir | Phase::StudentDir => {
                        let post = ComposerV { phase: next_phase(pre.phase), ..pre };
                        (post, StepV::Need(post.spec_action()))
                    },
                    Phase::StudentOverlay => {
                        let post = ComposerV {
                            phase: Phase::Complete,
                            mounts: pre.mounts.push(pre.student_target()),
                            ..pre
                        };
                        (post, StepV::Ready(pre.spec_container()))
                    },
                    _ => (pre, StepV::Need(pre.spec_action())),
                }
            }
        },
    }
}

impl Composer {
    /// Starts a construction: the base image to mount, the student
    /// submission directory, and the project template directory, all as
    /// path text.
    pub fn new(image: String, student_dir: String, project_dir: String) -> (c: Composer)
        ensures
            c@ == (ComposerV {
                phase: Phase::Credential,
                image: image@,
                student_dir: student_dir@,
                project_dir: project_dir@,
                display: None,
                credential: None,
                mounts: Seq::empty(),
                dirs: Seq::empty(),
            }),
            c@.wf(),
            c@.in_progress(),
    {
        let c = Composer {
            phase: Phase::Credential,
            image,
            student_dir,
            project_dir,
            display: None,
            credential: None,
            mounts: Vec::new(),
            dirs: Vec::new(),
        };
        proof {
            assert(seq_views(c.mounts@) =~= Seq::<Seq<char>>::empty());
            assert(seq_views(c.dirs@) =~= Seq::<Seq<char>>::empty());
        }
        c
    }

    /// The action the driver must perform next.
    pub fn next_action(&self) -> (a: Action)
        requires
            self@.wf(),
            self@.in_progress(),
        ensures
            a@ == self@.spec_action(),
    {
        match self.phase {
            Phase::Credential => Action::DeriveCredential,
            Phase::RootDir | Phase::RootUpper | Phase::RootWork | Phase::ProjectUpper
                | Phase::ProjectWork | Phase::StudentUpper | Phase::StudentWork => Action::AllocDir,
            Phase::BaseMount => Action::Privileged(
                PrivOp::MountImage { image: self.image.clone(), target: self.dirs[0].clone() },
            ),
            Phase::RootOverlay => {
                let request = OverlaySpec {
                    lower: self.dirs[0].clone(),
                    target: self.dirs[0].clone(),
                };
                Action::Privileged(overlay_op(&request, &self.dirs[1], &self.dirs[2]))
            },
            Phase::ProjectDir => Action::Privileged(
                PrivOp::MakeDir { path: self.dirs[0].clone().concat("/project") },
            ),
            Phase::ProjectOverlay => {
                let request = OverlaySpec {
                    lower: self.project_dir.clone(),
                    target: self.dirs[0].clone().concat("/project"),
                };
                Action::Privileged(overlay_op(&request, &self.dirs[3], &self.dirs[4]))
            },
            Phase::StudentDir => Action::Privileged(
                PrivOp::MakeDir { path: self.dirs[0].clone().concat("/project/student") },
            ),
            Phase::StudentOverlay => {
                let request = OverlaySpec {
                    lower: self.student_dir.clone(),
                    target: self.dirs[0].clone().concat("/project/student"),
                };
                Action::Privileged(overlay_op(&request, &self.dirs[5], &self.dirs[6]))
            },
            Phase::Complete | Phase::Aborted => Action::AllocDir,
        }
    }

    /// Consumes the outcome of the requested action and answers with the
    /// next step, exactly as [`spec_step`] says.
    pub fn step(&mut self, ev: Event) -> (s: Step)
        requires
            old(self)@.wf(),
            old(self)@.in_progress(),
            old(self)@.accepts(ev@),
        ensures
            final(self)@ == spec_step(old(self)@, ev@).0,
            s@ == spec_step(old(self)@, ev@).1,
            final(self)@.wf(),
    {
        let ghost pre = old(self)@;
        let ghost evv = ev@;
        match ev {
            Event::Failed { error } => {
                let rollback = rollback_ops(&self.mounts, &self.dirs);
                self.phase = Phase::Aborted;
                proof {
                    assert(self@ =~= spec_step(pre, evv).0);
                }
                Step::Abort { rollback, error }
            },
            Event::Credential { display, path } => {
                self.display = Some(display);
                self.credential = Some(path);
                self.phase = Phase::RootDir;
                proof {
                    assert(self@ =~= spec_step(pre, evv).0);
                }
                Step::Need(self.next_action())
            },
            Event::Dir { path } => {
                let ghost pathv = path@;
                self.dirs.push(path);
                self.phase = advance(self.phase);
                proof {
                    assert(seq_views(self.dirs@) =~= pre.dirs.push(pathv));
                    assert(self@ =~= spec_step(pre, evv).0);
                }
                Step::Need(self.next_action())
            },
            Event::Exit { status } => {
                if status.is_success() {
                    match self.phase {
                        Phase::BaseMount | Phase::RootOverlay => {
                            let target = self.dirs[0].clone();
                            let ghost targetv = target@;
                            self.mounts.push(target);
                            self.phase = advance(self.phase);
                            proof {
                                assert(seq_views(self.mounts@) =~= pre.mounts.push(targetv));
                                assert(self@ =~= spec_step(pre, evv).0);
                            }
                            Step::Need(self.next_action())
                        },
                        Phase::ProjectDir | Phase::StudentDir => {
                            self.phase = advance(self.phase);
                            proof {
                                assert(self@ =~= spec_step(pre, evv).0);
                            }
                            Step::Need(self.next_action())
                        },
                        Phase::ProjectOverlay => {
                            let target = self.dirs[0].clone().concat("/project");
                            let ghost targetv = target@;
                            self.mounts.push(target);
                            self.phase = advance(self.phase);
                            proof {
                                assert(seq_views(self.mounts@) =~= pre.mounts.push(targetv));
                                assert(self@ =~= spec_step(pre, evv).0);
                            }
                            Step::Need(self.next_action())
                        },
                        Phase::StudentOverlay => {
                            let root = self.dirs[0].clone();
                            let target = self.dirs[0].clone().concat("/project/student");
                            let ghost targetv = target@;
                            let display = match &self.display {
                                Some(d) => d.clone(),
                                None => String::new(),
                            };
                            let credential = match &self.credential {
                                Some(c) => c.clone(),
                                None => String::new(),
                            };
                            let mut overlays: Vec<MountPoint> = Vec::new();
                            overlays.push(
                                MountPoint {
                                    target: self.dirs[0].clone(),
                                    upper: self.dirs[1].clone(),
                                    work: self.dirs[2].clone(),
                                    mounted: true,
                                },
                            );
                            overlays.push(
                                MountPoint {
                                    target: self.dirs[0].clone().concat("/project"),
                                    upper: self.dirs[3].clone(),
                                    work: self.dirs[4].clone(),
                                    mounted: true,
                                },
                            );
                            overlays.push(
                                MountPoint {
                                    target: target.clone(),
                                    upper: self.dirs[5].clone(),
                                    work: self.dirs[6].clone(),
                                    mounted: true,
                                },
                            );
                            let container = Container {
                                root,
                                display,
                                credential,
                                overlays,
                                torn_down: false,
                            };
                            self.mounts.push(target);
                            self.phase = Phase::Complete;
                            proof {
                                assert(seq_views(self.mounts@) =~= pre.mounts.push(targetv));
                                assert(self@ =~= spec_step(pre, evv).0);
                                assert(container@.overlays =~= pre.spec_container().overlays);
                                assert(container@ =~= pre.spec_container());
                            }
                            Step::Ready(container)
                        },
                        _ => {
                            // Unreachable: `accepts` allows an exit status
                            // only in the phases handled above.
                            proof {
                                assert(false);
                            }
                            Step::Need(Action::AllocDir)
                        },
                    }
                } else {
                    let rollback = rollback_ops(&self.mounts, &self.dirs);
                    self.phase = Phase::Aborted;
                    proof {
                        assert(self@ =~= spec_step(pre, evv).0);
                    }
                    Step::Abort {
                        rollback,
                        error: SandboxError::PrivilegeOperation { exit_code: status.code },
                    }
                }
            },
        }
    }
}

/// The phase reached after the current action succeeds.
fn advance(p: Phase) -> (q: Phase)
    ensures
        q == next_phase(p),
{
    match p {
        Phase::Credential => Phase::RootDir,
        Phase::RootDir => Phase::BaseMount,
        Phase::BaseMount => Phase::RootUpper,
        Phase::RootUpper => Phase::RootWork,
        Phase::RootWork => Phase::RootOverlay,
        Phase::RootOverlay => Phase::ProjectDir,
        Phase::ProjectDir => Phase::ProjectUpper,
        Phase::ProjectUpper => Phase::ProjectWork,
        Phase::ProjectWork => Phase::ProjectOverlay,
        Phase::ProjectOverlay => Phase::StudentDir,
        Phase::StudentDir => Phase::StudentUpper,
        Phase::StudentUpper => Phase::StudentWork,
        Phase::StudentWork => Phase::StudentOverlay,
        Phase::StudentOverlay => Phase::Complete,
        Phase::Complete => Phase::Complete,
        Phase::Aborted => Phase::Aborted,
    }
}

/// Rollback completeness: whenever a step aborts construction, its
/// rollback plan covers exactly the mounts and directories recorded so
/// far, performing it releases every one of them, and its unmounts run in
/// strict last-in-first-out order.
pub proof fn lemma_abort_rolls_back_everything(pre: ComposerV, ev: EventV)
    requires
        pre.wf(),
        pre.in_progress(),
        pre.accepts(ev),
    ensures
        match spec_step(pre, ev).1 {
            StepV::Abort { rollback, error } => {
                &&& rollback == spec_rollback(pre.mounts, pre.dirs)
                &&& (FsModel { mounts: pre.mounts, dirs: pre.dirs.to_set() }).apply_all(rollback)
                    == FsModel::empty()
                &&& unmounts_in_lifo_order(pre.mounts, rollback.take(pre.mounts.len() as int))
            },
            _ => true,
        },
{
    match spec_step(pre, ev).1 {
        StepV::Abort { rollback, error } => {
            crate::effects::lemma_rollback_completeness(pre.mounts, pre.dirs);
            crate::effects::lemma_unmount_lifo(pre.mounts, pre.dirs);
        },
        _ => {},
    }
}

/// The finished container owns exactly what construction recorded: its
/// mount targets are the recorded mounts plus the final student overlay,
/// its scratch directories are exactly the allocated directories, and it
/// is live.
pub proof fn lemma_ready_container_owns_records(pre: ComposerV, ev: EventV)
    requires
        pre.wf(),
        pre.in_progress(),
        pre.accepts(ev),
    ensures
        match spec_step(pre, ev).1 {
            StepV::Ready(c) => {
                &&& c.mount_targets() == pre.mounts.push(pre.student_target())
                &&& c.scratch_dirs() == pre.dirs
                &&& c.live()
            },
            _ => true,
        },
{
    match spec_step(pre, ev).1 {
        StepV::Ready(c) => {
            assert(c.mount_targets() =~= pre.mounts.push(pre.student_target()));
            assert(c.scratch_dirs() =~= pre.dirs);
        },
        _ => {},
    }
}

} // verus!
