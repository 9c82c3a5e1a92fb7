//! The abstract start/stop story of the controller.
//!
//! Two tasks share one boolean run flag: the controller flips it, the
//! background loop reads it at the top of every iteration and exits once
//! it is clear.  This module models that lifecycle at the granularity of
//! the flag's observations: `Start` spawns a loop only from a stopped
//! state, and `Stop` covers the loop's cooperative exit — the loop is
//! gone by its next flag check, with the bounded in-flight tail pinned
//! down by [`crate::schedule::lemma_cooperative_stop`].
//!
//! The lemmas are the lifecycle's laws: starting is idempotent while
//! running, stopping and starting again resumes with a fresh loop, and
//! however start and stop are interleaved, at most one loop is ever
//! active — repeated stop/start cycles leak nothing.

use vstd::prelude::*;

verus! {

/// The shared state the two tasks agree on: the run flag, and how many
/// background loops are active.
pub struct Lifecycle {
    pub run_flag: bool,
    pub active_loops: nat,
}

/// What the controller can do to the lifecycle.
#[derive(PartialEq, Eq, Structural, Copy, Clone, Debug)]
pub enum ControlOp {
    Start,
    Stop,
}

/// The state at process start: flag clear, no loop.
pub open spec fn lifecycle_init() -> Lifecycle {
    Lifecycle { run_flag: false, active_loops: 0 }
}

/// One controller operation.  `Start` while the flag is set is a no-op;
/// `Start` from a stopped state sets the flag and spawns one loop.
/// `Stop` clears the flag, upon which the loop exits at its next flag
/// check, before anything further can be started.
pub open spec fn apply_op(l: Lifecycle, op: ControlOp) -> Lifecycle {
    match op {
        ControlOp::Start => if l.run_flag {
            l
        } else {
            Lifecycle { run_flag: true, active_loops: l.active_loops + 1 }
        },
        ControlOp::Stop => Lifecycle { run_flag: false, active_loops: 0 },
    }
}

/// A whole history of controller operations, applied in order.
pub open spec fn apply_ops(l: Lifecycle, ops: Seq<ControlOp>) -> Lifecycle
    decreases ops.len(),
{
    if ops.len() == 0 {
        l
    } else {
        apply_ops(apply_op(l, ops[0]), ops.drop_first())
    }
}

/// The lifecycle invariant: a loop is active exactly while the run flag
/// is set — in particular, never more than one.
pub open spec fn lifecycle_inv(l: Lifecycle) -> bool {
    l.active_loops == (if l.run_flag {
        1nat
    } else {
        0nat
    })
}

/// Every single controller operation preserves the invariant.
pub proof fn lemma_op_preserves_inv(l: Lifecycle, op: ControlOp)
    requires
        lifecycle_inv(l),
    ensures
        lifecycle_inv(apply_op(l, op)),
{
}

/// However start and stop are interleaved over the whole history, at
/// most one loop is ever active: repeated stop/start cycles accumulate
/// no leaked loops.
pub proof fn lemma_no_leaked_loops(ops: Seq<ControlOp>)
    ensures
        lifecycle_inv(apply_ops(lifecycle_init(), ops)),
        apply_ops(lifecycle_init(), ops).active_loops <= 1,
{
    lemma_inv_preserved_from(lifecycle_init(), ops);
}

/// The invariant carries from any state through any operation sequence.
pub proof fn lemma_inv_preserved_from(l: Lifecycle, ops: Seq<ControlOp>)
    requires
        lifecycle_inv(l),
    ensures
        lifecycle_inv(apply_ops(l, ops)),
    decreases ops.len(),
{
    if ops.len() == 0 {
    } else {
        lemma_op_preserves_inv(l, ops[0]);
        lemma_inv_preserved_from(apply_op(l, ops[0]), ops.drop_first());
    }
}

/// Starting while already running changes nothing: calling start twice
/// in a row leaves exactly the one loop the first call spawned.
pub proof fn lemma_start_idempotent(l: Lifecycle)
    requires
        l.run_flag,
    ensures
        apply_op(l, ControlOp::Start) == l,
{
}

/// Stop followed by start resumes emission: whatever ran before, the
/// state afterwards is one fresh loop under a set flag.
pub proof fn lemma_stop_then_start_resumes(l: Lifecycle)
    ensures
        apply_op(apply_op(l, ControlOp::Stop), ControlOp::Start) == (Lifecycle {
            run_flag: true,
            active_loops: 1,
        }),
{
}

} // verus!
