//! The container handle: the aggregate owning the sandbox's mounts, scratch
//! directories and scoped display credential, the preconfigured confined
//! command line, and the teardown plan.
//!
//! Teardown unmounts the four owned mounts in exact reverse creation order,
//! then recursively force-removes every scratch/root directory.  The plan is
//! emitted once: a second teardown of the same handle emits nothing, so it
//! cannot mutate the filesystem again.

use vstd::prelude::*;

use crate::effects::FsModel;
use crate::ops::MountPoint;
use crate::ops::OpV;
use crate::ops::PrivOp;
use crate::ops::rollback_ops;
use crate::ops::seq_views;
use crate::ops::spec_rollback;

verus! {

/// The mathematical image of a [`MountPoint`].
#[verifier::ext_equal]
pub struct MountPointV {
    pub target: Seq<char>,
    pub upper: Seq<char>,
    pub work: Seq<char>,
    pub mounted: bool,
}

impl View for MountPoint {
    type V = MountPointV;

    open spec fn view(&self) -> MountPointV {
        MountPointV {
            target: self.target@,
            upper: self.upper@,
            work: self.work@,
            mounted: self.mounted,
        }
    }
}

/// A fully constructed sandbox: the mounted root, the display identifier
/// and scoped credential file, and the three overlay mounts nested inside
/// the base-image mount, in creation order.
#[derive(Debug)]
pub struct Container {
    pub root: String,
    pub display: String,
    pub credential: String,
    pub overlays: Vec<MountPoint>,
    pub torn_down: bool,
}

/// The mathematical image of a [`Container`].
#[verifier::ext_equal]
pub struct ContainerV {
    pub root: Seq<char>,
    pub display: Seq<char>,
    pub credential: Seq<char>,
    pub overlays: Seq<MountPointV>,
    pub torn_down: bool,
}

impl View for Container {
    type V = ContainerV;

    open spec fn view(&self) -> ContainerV {
        ContainerV {
            root: self.root@,
            display: self.display@,
            credential: self.credential@,
            overlays: self.overlays@.map_values(|m: MountPoint| m@),
            torn_down: self.torn_down,
        }
    }
}

impl ContainerV {
    /// The owned mount targets in creation order: the base-image mount at
    /// the root, then each overlay.
    pub open spec fn mount_targets(self) -> Seq<Seq<char>> {
        seq![self.root] + self.overlays.map_values(|m: MountPointV| m.target)
    }

    /// The owned scratch/root directories in creation order: the root
    /// directory, then each overlay's upper and work directory.
    pub open spec fn scratch_dirs(self) -> Seq<Seq<char>> {
        seq![self.root] + Seq::new(
            2 * self.overlays.len(),
            |k: int|
                if k % 2 == 0 {
                    self.overlays[k / 2].upper
                } else {
                    self.overlays[k / 2].work
                },
        )
    }

    /// What one teardown emits: the full rollback plan the first time,
    /// nothing afterwards.
    pub open spec fn teardown_plan(self) -> Seq<OpV> {
        if self.torn_down {
            Seq::empty()
        } else {
            spec_rollback(self.mount_targets(), self.scratch_dirs())
        }
    }

    /// The state after one teardown: released, with every mount marked
    /// unmounted.
    pub open spec fn after_teardown(self) -> ContainerV {
        ContainerV {
            overlays: self.overlays.map_values(|m: MountPointV| MountPointV { mounted: false, ..m }),
            torn_down: true,
            ..self
        }
    }

    /// A live container: not yet torn down, every overlay mounted.
    pub open spec fn live(self) -> bool {
        &&& !self.torn_down
        &&& forall|i: int| 0 <= i < self.overlays.len() ==> self.overlays[i].mounted
    }

    /// The exact command line that launches a confined process in this
    /// sandbox (without the privilege prefix): rooted at the mounted tree,
    /// with the display socket and the scoped credential bound in, the
    /// environment restricted to the display identifier and credential
    /// path, the process in the namespace's supervisory slot, and the
    /// working directory under the mounted project root.  The caller
    /// appends the interpreter and script.
    pub open spec fn spec_cmd(self) -> Seq<Seq<char>> {
        seq![
            "systemd-nspawn"@,
            "--quiet"@,
            "-D"@,
            self.root,
            "--bind=/tmp/.X11-unix"@,
            "--bind"@,
            self.credential,
            "-E"@,
            "DISPLAY="@ + self.display,
            "-E"@,
            "XAUTHORITY="@ + self.credential,
            "--as-pid2"@,
            "--chdir=/project"@,
        ]
    }
}

impl Container {
    /// The preconfigured confined command line for this sandbox; the
    /// caller appends the interpreter and script name.
    pub fn cmd(&self) -> (v: Vec<String>)
        ensures
            seq_views(v@) == self@.spec_cmd(),
    {
        let mut v: Vec<String> = Vec::new();
        v.push(String::from_str("systemd-nspawn"));
        v.push(String::from_str("--quiet"));
        v.push(String::from_str("-D"));
        v.push(self.root.clone());
        v.push(String::from_str("--bind=/tmp/.X11-unix"));
        v.push(String::from_str("--bind"));
        v.push(self.credential.clone());
        v.push(String::from_str("-E"));
        v.push(String::from_str("DISPLAY=").concat(self.display.as_str()));
        v.push(String::from_str("-E"));
        v.push(String::from_str("XAUTHORITY=").concat(self.credential.as_str()));
        v.push(String::from_str("--as-pid2"));
        v.push(String::from_str("--chdir=/project"));
        assert(seq_views(v@) =~= self@.spec_cmd());
        v
    }

    /// Emits the teardown plan and marks the container released.  The
    /// first call returns the full plan — unmounts in exact reverse
    /// creation order, then the removal of every scratch/root directory;
    /// any later call returns no operation at all.
    pub fn clean_up(&mut self) -> (ops: Vec<PrivOp>)
        ensures
            crate::ops::op_views(ops@) == old(self)@.teardown_plan(),
            final(self)@ == if old(self)@.torn_down {
                old(self)@
            } else {
                old(self)@.after_teardown()
            },
    {
        if self.torn_down {
            let ops: Vec<PrivOp> = Vec::new();
            assert(crate::ops::op_views(ops@) =~= old(self)@.teardown_plan());
            return ops;
        }
        let mut mounts: Vec<String> = Vec::new();
        let mut dirs: Vec<String> = Vec::new();
        let mut released: Vec<MountPoint> = Vec::new();
        mounts.push(self.root.clone());
        dirs.push(self.root.clone());
        let n = self.overlays.len();
        let mut i: usize = 0;
        while i < n
            invariant
                i <= n,
                n == self.overlays@.len(),
                self == old(self),
                mounts@.len() == i + 1,
                mounts@[0]@ == self.root@,
                forall|k: int| 0 <= k < i ==> mounts@[k + 1]@ == self.overlays@[k]@.target,
                dirs@.len() == 2 * i + 1,
                dirs@[0]@ == self.root@,
                forall|k: int|
                    0 <= k < i ==> dirs@[2 * k + 1]@ == self.overlays@[k]@.upper && dirs@[2 * k
                        + 2]@ == self.overlays@[k]@.work,
                released@.len() == i,
                forall|k: int|
                    0 <= k < i ==> released@[k]@ == (MountPointV {
                        mounted: false,
                        ..self.overlays@[k]@
                    }),
            decreases n - i,
        {
            let m = &self.overlays[i];
            mounts.push(m.target.clone());
            dirs.push(m.upper.clone());
            dirs.push(m.work.clone());
            released.push(
                MountPoint {
                    target: m.target.clone(),
                    upper: m.upper.clone(),
                    work: m.work.clone(),
                    mounted: false,
                },
            );
            i = i + 1;
        }
        let ops = rollback_ops(&mounts, &dirs);
        proof {
            assert(seq_views(mounts@) =~= old(self)@.mount_targets());
            assert(seq_views(dirs@) =~= old(self)@.scratch_dirs());
        }
        self.overlays = released;
        self.torn_down = true;
        proof {
            assert(final(self)@ =~= old(self)@.after_teardown());
        }
        ops
    }
}

/// Idempotent teardown: once a container is torn down, a further teardown
/// emits no operation, and performing that empty plan leaves any
/// filesystem state exactly as it is — no additional mutation.
pub proof fn lemma_teardown_idempotent(c: ContainerV, fs: FsModel)
    requires
        c.torn_down,
    ensures
        c.teardown_plan() == Seq::<OpV>::empty(),
        fs.apply_all(c.teardown_plan()) == fs,
{
}

/// Teardown releases everything: performed on exactly the resources the
/// container owns, the teardown plan of a live container leaves no mount
/// and no directory behind.
pub proof fn lemma_teardown_completeness(c: ContainerV)
    requires
        !c.torn_down,
    ensures
        (FsModel { mounts: c.mount_targets(), dirs: c.scratch_dirs().to_set() }).apply_all(
            c.teardown_plan(),
        ) == FsModel::empty(),
{
    crate::effects::lemma_rollback_completeness(c.mount_targets(), c.scratch_dirs());
}

/// Teardown unmounts in strict last-in-first-out order: the unmount prefix
/// of the plan releases the owned mounts in exact reverse creation order.
pub proof fn lemma_teardown_lifo(c: ContainerV)
    requires
        !c.torn_down,
    ensures
        crate::effects::unmounts_in_lifo_order(
            c.mount_targets(),
            c.teardown_plan().take(c.mount_targets().len() as int),
        ),
{
    crate::effects::lemma_unmount_lifo(c.mount_targets(), c.scratch_dirs());
}

} // verus!
