//! The privileged operations of the sandbox core, as plain data.
//!
//! The core never mounts or removes anything itself: it emits [`PrivOp`]
//! values in a proved order, and an unverified driver performs them (with
//! elevated privilege) and reports the exit codes back.  [`argv`] renders an
//! operation as the exact command line the driver must run.

use vstd::prelude::*;

verus! {

/// One privileged filesystem operation, to be performed by the driver.
#[derive(Debug, PartialEq, Eq)]
pub enum PrivOp {
    /// Loop-mount the read-only base image onto `target`.
    MountImage { image: String, target: String },
    /// Overlay-mount `lower` (read side) plus the `upper`/`work` scratch
    /// directories (write/bookkeeping side) onto `target`.
    MountOverlay { lower: String, upper: String, work: String, target: String },
    /// Create a directory (and its parents) inside the mounted tree.
    MakeDir { path: String },
    /// Recursively unmount `path`.
    Unmount { path: String },
    /// Recursively force-remove a scratch or root directory.
    RemoveTree { path: String },
}

/// The mathematical image of a [`PrivOp`]: the same operation over
/// character sequences.
pub enum OpV {
    MountImage { image: Seq<char>, target: Seq<char> },
    MountOverlay { lower: Seq<char>, upper: Seq<char>, work: Seq<char>, target: Seq<char> },
    MakeDir { path: Seq<char> },
    Unmount { path: Seq<char> },
    RemoveTree { path: Seq<char> },
}

impl View for PrivOp {
    type V = OpV;

    open spec fn view(&self) -> OpV {
        match self {
            PrivOp::MountImage { image, target } => OpV::MountImage {
                image: image@,
                target: target@,
            },
            PrivOp::MountOverlay { lower, upper, work, target } => OpV::MountOverlay {
                lower: lower@,
                upper: upper@,
                work: work@,
                target: target@,
            },
            PrivOp::MakeDir { path } => OpV::MakeDir { path: path@ },
            PrivOp::Unmount { path } => OpV::Unmount { path: path@ },
            PrivOp::RemoveTree { path } => OpV::RemoveTree { path: path@ },
        }
    }
}

/// The views of a sequence of strings.
pub open spec fn seq_views(s: Seq<String>) -> Seq<Seq<char>> {
    s.map_values(|x: String| x@)
}

/// The views of a sequence of operations.
pub open spec fn op_views(s: Seq<PrivOp>) -> Seq<OpV> {
    s.map_values(|op: PrivOp| op@)
}

/// The exit status of a finished process; the code is `None` when the
/// process was terminated without one.
#[derive(Clone, Copy, Debug, PartialEq, Eq)]
pub struct ExitStatus {
    pub code: Option<i32>,
}

impl ExitStatus {
    /// A process succeeded exactly when it exited with code zero.
    pub open spec fn success(self) -> bool {
        self.code == Some(0i32)
    }

    pub fn is_success(&self) -> (b: bool)
        ensures
            b == self.success(),
    {
        match self.code {
            Some(c) => c == 0,
            None => false,
        }
    }
}

/// A request for one overlay mount: compose `lower` (read side) onto
/// `target`.  A request is not a resource; it is consumed, together with two
/// fresh scratch directories, to produce the mount operation.
#[derive(Debug, PartialEq, Eq)]
pub struct OverlaySpec {
    pub lower: String,
    pub target: String,
}

/// One live overlay mount: its target and the two scratch directories that
/// hold the written and bookkeeping data.  Once `mounted`, the target is a
/// live kernel mount until it is explicitly unmounted.
#[derive(Debug, PartialEq, Eq)]
pub struct MountPoint {
    pub target: String,
    pub upper: String,
    pub work: String,
    pub mounted: bool,
}

/// Consumes an overlay request and two fresh scratch directories into the
/// mount operation the driver must perform.
pub fn overlay_op(request: &OverlaySpec, upper: &String, work: &String) -> (op: PrivOp)
    ensures
        op@ == (OpV::MountOverlay {
            lower: request.lower@,
            upper: upper@,
            work: work@,
            target: request.target@,
        }),
{
    PrivOp::MountOverlay {
        lower: request.lower.clone(),
        upper: upper.clone(),
        work: work.clone(),
        target: request.target.clone(),
    }
}

/// The single `-o` option string of an overlay mount.
pub open spec fn spec_overlay_options(lower: Seq<char>, upper: Seq<char>, work: Seq<char>) -> Seq<
    char,
> {
    "lowerdir="@ + lower + ",upperdir="@ + upper + ",workdir="@ + work
}

/// The exact command line of an operation, without the privilege prefix.
pub open spec fn spec_argv(op: OpV) -> Seq<Seq<char>> {
    match op {
        OpV::MountImage { image, target } => seq![
            "mount"@,
            image,
            target,
            "-t"@,
            "squashfs"@,
            "-o"@,
            "loop"@,
        ],
        OpV::MountOverlay { lower, upper, work, target } => seq![
            "mount"@,
            "-t"@,
            "overlay"@,
            "-o"@,
            spec_overlay_options(lower, upper, work),
            "overlay"@,
            target,
        ],
        OpV::MakeDir { path } => seq!["mkdir"@, "-p"@, path],
        OpV::Unmount { path } => seq!["umount"@, "-R"@, path],
        OpV::RemoveTree { path } => seq!["rm"@, "-rf"@, path],
    }
}

/// Renders an operation as the command line the driver runs (the driver
/// itself prepends its privilege-escalation prefix).
pub fn argv(op: &PrivOp) -> (v: Vec<String>)
    ensures
        seq_views(v@) == spec_argv(op@),
{
    let mut v: Vec<String> = Vec::new();
    match op {
        PrivOp::MountImage { image, target } => {
            v.push(String::from_str("mount"));
            v.push(image.clone());
            v.push(target.clone());
            v.push(String::from_str("-t"));
            v.push(String::from_str("squashfs"));
            v.push(String::from_str("-o"));
            v.push(String::from_str("loop"));
        },
        PrivOp::MountOverlay { lower, upper, work, target } => {
            let options = String::from_str("lowerdir=").concat(lower.as_str()).concat(
                ",upperdir=",
            ).concat(upper.as_str()).concat(",workdir=").concat(work.as_str());
            v.push(String::from_str("mount"));
            v.push(String::from_str("-t"));
            v.push(String::from_str("overlay"));
            v.push(String::from_str("-o"));
            v.push(options);
            v.push(String::from_str("overlay"));
            v.push(target.clone());
        },
        PrivOp::MakeDir { path } => {
            v.push(String::from_str("mkdir"));
            v.push(String::from_str("-p"));
            v.push(path.clone());
        },
        PrivOp::Unmount { path } => {
            v.push(String::from_str("umount"));
            v.push(String::from_str("-R"));
            v.push(path.clone());
        },
        PrivOp::RemoveTree { path } => {
            v.push(String::from_str("rm"));
            v.push(String::from_str("-rf"));
            v.push(path.clone());
        },
    }
    assert(seq_views(v@) =~= spec_argv(op@));
    v
}

/// The teardown and rollback plan: unmount every recorded mount target in
/// exact reverse creation order, then recursively force-remove every scratch
/// or root directory, also in reverse creation order.
pub open spec fn spec_rollback(mounts: Seq<Seq<char>>, dirs: Seq<Seq<char>>) -> Seq<OpV> {
    mounts.reverse().map_values(|p: Seq<char>| OpV::Unmount { path: p })
        + dirs.reverse().map_values(|p: Seq<char>| OpV::RemoveTree { path: p })
}

/// Builds the teardown and rollback operations for the recorded mount
/// targets (in creation order) and allocated directories (in creation
/// order).
pub fn rollback_ops(mounts: &Vec<String>, dirs: &Vec<String>) -> (r: Vec<PrivOp>)
    ensures
        op_views(r@) == spec_rollback(seq_views(mounts@), seq_views(dirs@)),
{
    let mut r: Vec<PrivOp> = Vec::new();
    let mut i: usize = mounts.len();
    while i > 0
        invariant
            i <= mounts@.len(),
            r@.len() == mounts@.len() - i,
            forall|k: int|
                0 <= k < r@.len() ==> r@[k]@ == (OpV::Unmount {
                    path: mounts@[mounts@.len() - 1 - k]@,
                }),
        decreases i,
    {
        i = i - 1;
        r.push(PrivOp::Unmount { path: mounts[i].clone() });
    }
    let mut j: usize = dirs.len();
    while j > 0
        invariant
            j <= dirs@.len(),
            r@.len() == mounts@.len() + dirs@.len() - j,
            forall|k: int|
                0 <= k < mounts@.len() ==> r@[k]@ == (OpV::Unmount {
                    path: mounts@[mounts@.len() - 1 - k]@,
                }),
            forall|k: int|
                mounts@.len() <= k < r@.len() ==> r@[k]@ == (OpV::RemoveTree {
                    path: dirs@[dirs@.len() - 1 - (k - mounts@.len())]@,
                }),
        decreases j,
    {
        j = j - 1;
        r.push(PrivOp::RemoveTree { path: dirs[j].clone() });
    }
    assert(op_views(r@) =~= spec_rollback(seq_views(mounts@), seq_views(dirs@)));
    r
}

/// How many times an unmount is attempted during teardown: overlay teardown
/// can race with lazily-held references, so a failed attempt is retried, but
/// cleanup stays bounded and best-effort.
pub const UNMOUNT_ATTEMPTS: u32 = 2;

/// The bounded-retry-until-success policy for unmounting: retry a failed
/// attempt while fewer than [`UNMOUNT_ATTEMPTS`] attempts have been made.
pub fn should_retry_unmount(attempts_made: u32, last_succeeded: bool) -> (again: bool)
    ensures
        again == (!last_succeeded && attempts_made < UNMOUNT_ATTEMPTS),
{
    !last_succeeded && attempts_made < UNMOUNT_ATTEMPTS
}

} // verus!
