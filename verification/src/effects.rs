//! A ghost model of what the privileged operations do to the filesystem,
//! and the proofs that the teardown/rollback plan is complete and strictly
//! last-in-first-out.
//!
//! The model tracks exactly the resources the core creates: the stack of
//! live mounts (innermost last) and the set of scratch/root directories.
//! Directories made *inside* a mounted overlay land in a scratch directory
//! and vanish with it, so `MakeDir` leaves the model unchanged.

use vstd::prelude::*;

use crate::ops::OpV;
use crate::ops::spec_rollback;

verus! {

/// The resources the core has created and not yet released: the stack of
/// live mount targets (in mount order, innermost last) and the set of
/// allocated scratch/root directories.
#[verifier::ext_equal]
pub struct FsModel {
    pub mounts: Seq<Seq<char>>,
    pub dirs: Set<Seq<char>>,
}

impl FsModel {
    /// No resource is live.
    pub open spec fn empty() -> FsModel {
        FsModel { mounts: Seq::empty(), dirs: Set::empty() }
    }

    /// The state after performing one operation.  An unmount releases the
    /// innermost mount when it names it (nested mounts can only be released
    /// innermost-first); a removal releases a directory; creating a
    /// directory inside the mounted tree allocates nothing of its own.
    pub open spec fn apply(self, op: OpV) -> FsModel {
        match op {
            OpV::MountImage { image: _, target } => FsModel {
                mounts: self.mounts.push(target),
                ..self
            },
            OpV::MountOverlay { lower: _, upper: _, work: _, target } => FsModel {
                mounts: self.mounts.push(target),
                ..self
            },
            OpV::MakeDir { path: _ } => self,
            OpV::Unmount { path } => {
                if self.mounts.len() > 0 && self.mounts.last() == path {
                    FsModel { mounts: self.mounts.drop_last(), ..self }
                } else {
                    self
                }
            },
            OpV::RemoveTree { path } => FsModel { dirs: self.dirs.remove(path), ..self },
        }
    }

    /// The state after performing a sequence of operations in order.
    pub open spec fn apply_all(self, ops: Seq<OpV>) -> FsModel
        decreases ops.len(),
    {
        if ops.len() == 0 {
            self
        } else {
            self.apply(ops.first()).apply_all(ops.drop_first())
        }
    }
}

/// Whether a sequence of operations, performed against the given mount
/// stack, unmounts in strict last-in-first-out order: every unmount names
/// the mount that is innermost at that moment, and nothing else touches the
/// stack.
pub open spec fn unmounts_in_lifo_order(stack: Seq<Seq<char>>, ops: Seq<OpV>) -> bool
    decreases ops.len(),
{
    if ops.len() == 0 {
        stack.len() == 0
    } else {
        match ops.first() {
            OpV::Unmount { path } => stack.len() > 0 && path == stack.last()
                && unmounts_in_lifo_order(stack.drop_last(), ops.drop_first()),
            _ => false,
        }
    }
}

/// Splitting a run of operations: performing a concatenation is performing
/// the parts in turn.
pub proof fn lemma_apply_all_app(fs: FsModel, a: Seq<OpV>, b: Seq<OpV>)
    ensures
        fs.apply_all(a + b) == fs.apply_all(a).apply_all(b),
    decreases a.len(),
{
    if a.len() == 0 {
        assert(a + b =~= b);
        assert(fs.apply_all(a) == fs);
    } else {
        assert((a + b).first() == a.first());
        assert((a + b).drop_first() =~= a.drop_first() + b);
        lemma_apply_all_app(fs.apply(a.first()), a.drop_first(), b);
    }
}

/// The unmount half of the plan: performed against the stack it was built
/// from, it empties the stack, touches no directory, and every single
/// unmount releases the then-innermost mount.
pub proof fn lemma_unmount_phase(fs: FsModel)
    ensures
        fs.apply_all(fs.mounts.reverse().map_values(|p: Seq<char>| OpV::Unmount { path: p }))
            == (FsModel { mounts: Seq::empty(), dirs: fs.dirs }),
        unmounts_in_lifo_order(
            fs.mounts,
            fs.mounts.reverse().map_values(|p: Seq<char>| OpV::Unmount { path: p }),
        ),
    decreases fs.mounts.len(),
{
    let ops = fs.mounts.reverse().map_values(|p: Seq<char>| OpV::Unmount { path: p });
    if fs.mounts.len() == 0 {
        assert(fs.mounts.reverse() =~= Seq::<Seq<char>>::empty());
        assert(fs =~= FsModel { mounts: Seq::empty(), dirs: fs.dirs });
    } else {
        let popped = FsModel { mounts: fs.mounts.drop_last(), dirs: fs.dirs };
        assert(ops.first() == (OpV::Unmount { path: fs.mounts.last() }));
        assert(fs.apply(ops.first()) == popped);
        assert(ops.drop_first() =~= popped.mounts.reverse().map_values(
            |p: Seq<char>| OpV::Unmount { path: p },
        ));
        lemma_unmount_phase(popped);
    }
}

/// The removal half of the plan: it releases every directory it names and
/// leaves the (already empty) mount stack alone.
pub proof fn lemma_remove_phase(fs: FsModel, dirs: Seq<Seq<char>>)
    ensures
        fs.apply_all(dirs.reverse().map_values(|p: Seq<char>| OpV::RemoveTree { path: p }))
            == (FsModel { mounts: fs.mounts, dirs: fs.dirs.difference(dirs.to_set()) }),
    decreases dirs.len(),
{
    let ops = dirs.reverse().map_values(|p: Seq<char>| OpV::RemoveTree { path: p });
    if dirs.len() == 0 {
        assert(dirs.reverse() =~= Seq::<Seq<char>>::empty());
        assert(fs.dirs.difference(dirs.to_set()) =~= fs.dirs);
    } else {
        let rest = dirs.drop_last();
        assert(ops.first() == (OpV::RemoveTree { path: dirs.last() }));
        let fs1 = fs.apply(ops.first());
        assert(ops.drop_first() =~= rest.reverse().map_values(
            |p: Seq<char>| OpV::RemoveTree { path: p },
        ));
        lemma_remove_phase(fs1, rest);
        assert(dirs.to_set() =~= rest.to_set().insert(dirs.last())) by {
            assert forall|x: Seq<char>| dirs.to_set().contains(x)
                <==> rest.to_set().insert(dirs.last()).contains(x) by {
                if dirs.to_set().contains(x) {
                    let i = choose|i: int| 0 <= i < dirs.len() && dirs[i] == x;
                    if i < dirs.len() - 1 {
                        assert(rest[i] == x);
                    }
                }
                if rest.to_set().contains(x) {
                    let i = choose|i: int| 0 <= i < rest.len() && rest[i] == x;
                    assert(dirs[i] == x);
                }
                assert(dirs[dirs.len() - 1] == dirs.last());
            }
        }
        assert(fs1.dirs.difference(rest.to_set()) =~= fs.dirs.difference(dirs.to_set()));
    }
}

/// Rollback completeness: performing the whole teardown/rollback plan on
/// exactly the resources it was built from releases every mount and every
/// directory — nothing is leaked.
pub proof fn lemma_rollback_completeness(mounts: Seq<Seq<char>>, dirs: Seq<Seq<char>>)
    ensures
        (FsModel { mounts, dirs: dirs.to_set() }).apply_all(spec_rollback(mounts, dirs))
            == FsModel::empty(),
{
    let fs = FsModel { mounts, dirs: dirs.to_set() };
    let unmounts = mounts.reverse().map_values(|p: Seq<char>| OpV::Unmount { path: p });
    let removes = dirs.reverse().map_values(|p: Seq<char>| OpV::RemoveTree { path: p });
    lemma_apply_all_app(fs, unmounts, removes);
    lemma_unmount_phase(fs);
    lemma_remove_phase(FsModel { mounts: Seq::empty(), dirs: dirs.to_set() }, dirs);
    assert(dirs.to_set().difference(dirs.to_set()) =~= Set::<Seq<char>>::empty());
    assert(FsModel {
        mounts: Seq::empty(),
        dirs: dirs.to_set().difference(dirs.to_set()),
    } == FsModel::empty());
}

/// Last-in-first-out ordering: the unmounts of the teardown/rollback plan
/// release the recorded mounts in exact reverse creation order, innermost
/// first.
pub proof fn lemma_unmount_lifo(mounts: Seq<Seq<char>>, dirs: Seq<Seq<char>>)
    ensures
        unmounts_in_lifo_order(mounts, spec_rollback(mounts, dirs).take(mounts.len() as int)),
        forall|i: int|
            0 <= i < mounts.len() ==> spec_rollback(mounts, dirs)[i] == (OpV::Unmount {
                path: mounts[mounts.len() - 1 - i],
            }),
{
    let fs = FsModel { mounts, dirs: dirs.to_set() };
    let unmounts = mounts.reverse().map_values(|p: Seq<char>| OpV::Unmount { path: p });
    lemma_unmount_phase(fs);
    assert(spec_rollback(mounts, dirs).take(mounts.len() as int) =~= unmounts);
}

} // verus!
