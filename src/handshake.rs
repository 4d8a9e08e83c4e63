//! The ordering of the device commands that share one graphics buffer with
//! the compute device: take the buffer from the graphics side, run the
//! kernel into it, read it back to the host, and hand it back.

use vstd::prelude::*;

verus! {

/// One device command of the shared-buffer sequence.
#[derive(Clone, Copy, Debug, PartialEq, Eq, Structural)]
pub enum SharedBufferCmd {
    /// Acquire the graphics buffer for the compute device.
    AcquireGl,
    /// Run the kernel that writes into the shared buffer.
    RunKernel,
    /// Read the shared buffer back into host memory.
    ReadBack,
    /// Release the graphics buffer to the graphics pipeline.
    ReleaseGl,
}

/// How far the sequence has gone: the number of commands already enqueued.
#[derive(Clone, Copy, Debug, PartialEq, Eq, Structural)]
pub enum Stage {
    Ready,
    Acquired,
    Computed,
    ReadDone,
    Released,
}

/// The position of a command in the sequence.
pub open spec fn cmd_rank(c: SharedBufferCmd) -> nat {
    match c {
        SharedBufferCmd::AcquireGl => 0,
        SharedBufferCmd::RunKernel => 1,
        SharedBufferCmd::ReadBack => 2,
        SharedBufferCmd::ReleaseGl => 3,
    }
}

/// The number of commands enqueued by the time a stage is reached.
pub open spec fn stage_rank(s: Stage) -> nat {
    match s {
        Stage::Ready => 0,
        Stage::Acquired => 1,
        Stage::Computed => 2,
        Stage::ReadDone => 3,
        Stage::Released => 4,
    }
}

/// The whole sequence, in the order it is enqueued.
pub open spec fn plan() -> Seq<SharedBufferCmd> {
    seq![
        SharedBufferCmd::AcquireGl,
        SharedBufferCmd::RunKernel,
        SharedBufferCmd::ReadBack,
        SharedBufferCmd::ReleaseGl,
    ]
}

/// The command that comes next at stage `s`, none once the buffer is released.
pub open spec fn next_command_spec(s: Stage) -> Option<SharedBufferCmd> {
    if stage_rank(s) < 4 {
        Some(plan()[stage_rank(s) as int])
    } else {
        None
    }
}

/// The command whose completion `c` waits for: the one enqueued before it.
pub open spec fn waits_on_spec(c: SharedBufferCmd) -> Option<SharedBufferCmd> {
    if cmd_rank(c) == 0 {
        None
    } else {
        Some(plan()[cmd_rank(c) - 1])
    }
}

/// The command to enqueue at stage `s`.
pub fn next_command(s: Stage) -> (r: Option<SharedBufferCmd>)
    ensures
        r == next_command_spec(s),
{
    match s {
        Stage::Ready => Some(SharedBufferCmd::AcquireGl),
        Stage::Acquired => Some(SharedBufferCmd::RunKernel),
        Stage::Computed => Some(SharedBufferCmd::ReadBack),
        Stage::ReadDone => Some(SharedBufferCmd::ReleaseGl),
        Stage::Released => None,
    }
}

/// The stage reached once the next command of `s` has been enqueued; a
/// released buffer stays released.
pub fn advance(s: Stage) -> (r: Stage)
    ensures
        stage_rank(s) < 4 ==> stage_rank(r) == stage_rank(s) + 1,
        stage_rank(s) == 4 ==> r == s,
{
    match s {
        Stage::Ready => Stage::Acquired,
        Stage::Acquired => Stage::Computed,
        Stage::Computed => Stage::ReadDone,
        Stage::ReadDone => Stage::Released,
        Stage::Released => Stage::Released,
    }
}

/// The command whose completion event `c` must wait on before it runs.
pub fn waits_on(c: SharedBufferCmd) -> (r: Option<SharedBufferCmd>)
    ensures
        r == waits_on_spec(c),
{
    match c {
        SharedBufferCmd::AcquireGl => None,
        SharedBufferCmd::RunKernel => Some(SharedBufferCmd::AcquireGl),
        SharedBufferCmd::ReadBack => Some(SharedBufferCmd::RunKernel),
        SharedBufferCmd::ReleaseGl => Some(SharedBufferCmd::ReadBack),
    }
}

/// The whole sequence, produced by stepping from `Stage::Ready` until no
/// command is left.
pub fn command_plan() -> (r: Vec<SharedBufferCmd>)
    ensures
        r@ == plan(),
{
    let mut out: Vec<SharedBufferCmd> = Vec::new();
    let mut s = Stage::Ready;
    let mut next = next_command(s);
    while next.is_some()
        invariant
            stage_rank(s) <= 4,
            out@ == plan().take(stage_rank(s) as int),
            next == next_command_spec(s),
        decreases 4 - stage_rank(s),
    {
        let c = next.unwrap();
        out.push(c);
        s = advance(s);
        next = next_command(s);
        assert(out@ =~= plan().take(stage_rank(s) as int));
    }
    assert(out@ =~= plan());
    out
}

/// Every command but the first waits on the one enqueued just before it,
/// the first waits on nothing, and the buffer is acquired first and released
/// last, after it has been read back.
pub proof fn lemma_plan_is_chained()
    ensures
        plan().len() == 4,
        waits_on_spec(plan()[0]) is None,
        forall|i: int| 0 < i < plan().len() ==> waits_on_spec(#[trigger] plan()[i]) == Some(plan()[i - 1]),
        plan()[0] == SharedBufferCmd::AcquireGl,
        plan()[3] == SharedBufferCmd::ReleaseGl,
        plan()[2] == SharedBufferCmd::ReadBack,
{
    assert forall|i: int| 0 < i < plan().len() implies waits_on_spec(#[trigger] plan()[i]) == Some(plan()[i - 1]) by {
        assert(cmd_rank(plan()[i]) == i);
    }
}

/// No command appears twice in the sequence.
pub proof fn lemma_each_command_once(i: int, j: int)
    requires
        0 <= i < plan().len(),
        0 <= j < plan().len(),
        plan()[i] == plan()[j],
    ensures
        i == j,
{
    assert(cmd_rank(plan()[i]) == i);
    assert(cmd_rank(plan()[j]) == j);
}

} // verus!
