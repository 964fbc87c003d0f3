use vstd::prelude::*;
use crate::error::{check, check_spec, ErrorKind, Failure, KernelError};

verus! {

/// Bytes per vertex record: four 32-bit floats (x, y, z, radius).
pub const VERTEX_STRIDE: usize = 16;

/// Spheres per geometry.
pub const SPHERE_COUNT: usize = 1;

/// The largest bit pattern of a positive single-precision float (positive infinity).
pub const POSITIVE_INFINITY_BITS: u32 = 0x7f80_0000;

/// One sphere record, each field the bit pattern of a 32-bit float.
#[derive(Clone, Copy, Debug, PartialEq, Eq, Structural)]
pub struct SphereRecord {
    pub x: u32,
    pub y: u32,
    pub z: u32,
    pub radius: u32,
}

/// A radius is usable when it is a positive number: not zero, not negative, not NaN.
pub open spec fn radius_ok(bits: u32) -> bool {
    0 < bits && bits <= POSITIVE_INFINITY_BITS
}

impl SphereRecord {
    /// The four buffer slots in the order the kernel reads them.
    pub open spec fn slots_spec(self) -> Seq<u32> {
        seq![self.x, self.y, self.z, self.radius]
    }

    /// The values written to slots 0 to 3 of the vertex buffer.
    pub fn slots(&self) -> (r: [u32; 4])
        ensures
            r@ == self.slots_spec(),
    {
        let r = [self.x, self.y, self.z, self.radius];
        assert(r@ =~= self.slots_spec());
        r
    }
}

/// Where a sphere construction stands.
#[derive(Clone, Copy, Debug, PartialEq, Eq, Structural)]
pub enum SphereStage {
    /// Nothing asked of the kernel yet.
    Start,
    /// The geometry handle exists; its buffer does not.
    Created,
    /// The buffer exists and is empty.
    Allocated,
    /// The record is written; the geometry is not committed.
    Written,
    /// Committed: the handle now belongs to the finished geometry.
    Built,
    /// Construction failed; no handle is held.
    Failed,
}

/// What the kernel reported after the last call.
#[derive(Clone, Copy, Debug, PartialEq, Eq, Structural)]
pub enum SphereEvent {
    /// The sphere geometry object was requested; `created` is false on a null handle.
    GeometryCreated { created: bool, code: KernelError },
    /// The vertex buffer was requested; `created` is false on a null pointer.
    BufferCreated { created: bool, code: KernelError },
    /// The record was written to the buffer.
    RecordWritten,
    /// The geometry commit returned with this error code.
    GeometryCommitted { code: KernelError },
}

/// What the caller must do next.
#[derive(Clone, Copy, Debug, PartialEq, Eq, Structural)]
pub enum SphereAction {
    /// Ask the kernel for a new sphere-point geometry.
    NewGeometry,
    /// Ask the kernel for a vertex buffer of `count` records of `stride` bytes.
    NewVertexBuffer { stride: usize, count: usize },
    /// Write the record's slots into the buffer.
    WriteRecord(SphereRecord),
    /// Commit the geometry.
    CommitGeometry,
    /// Done: the handle is owned by the finished geometry.
    Finish,
    /// Stop with this failure, releasing the geometry handle first when `release` is set.
    Abort { failure: Failure, release: bool },
}

/// The events a stage expects.
pub open spec fn accepts(stage: SphereStage, ev: SphereEvent) -> bool {
    match (stage, ev) {
        (SphereStage::Start, SphereEvent::GeometryCreated { .. }) => true,
        (SphereStage::Created, SphereEvent::BufferCreated { .. }) => true,
        (SphereStage::Allocated, SphereEvent::RecordWritten) => true,
        (SphereStage::Written, SphereEvent::GeometryCommitted { .. }) => true,
        _ => false,
    }
}

/// Whether a geometry handle is held in this stage.
pub open spec fn holds_handle(stage: SphereStage) -> bool {
    match stage {
        SphereStage::Created | SphereStage::Allocated | SphereStage::Written
        | SphereStage::Built => true,
        _ => false,
    }
}

/// The transition for an accepted event: the next stage and the action owed.
pub open spec fn step_spec(rec: SphereRecord, stage: SphereStage, ev: SphereEvent) -> (
    SphereStage,
    SphereAction,
) {
    match ev {
        SphereEvent::GeometryCreated { created, code } => if created {
            (SphereStage::Created, SphereAction::NewVertexBuffer { stride: VERTEX_STRIDE, count: SPHERE_COUNT })
        } else {
            (SphereStage::Failed, SphereAction::Abort {
                failure: Failure { kind: ErrorKind::GeometryCreation, code },
                release: false,
            })
        },
        SphereEvent::BufferCreated { created, code } => if created && code == KernelError::Success {
            (SphereStage::Allocated, SphereAction::WriteRecord(rec))
        } else {
            (SphereStage::Failed, SphereAction::Abort {
                failure: Failure { kind: ErrorKind::BufferAllocation, code },
                release: true,
            })
        },
        SphereEvent::RecordWritten => (SphereStage::Written, SphereAction::CommitGeometry),
        SphereEvent::GeometryCommitted { code } => match check_spec(code, ErrorKind::GeometryCommit) {
            Ok(_) => (SphereStage::Built, SphereAction::Finish),
            Err(failure) => (SphereStage::Failed, SphereAction::Abort { failure, release: true }),
        },
    }
}

/// Handles the kernel hands out on this event: one when a geometry is created.
pub open spec fn acquired(stage: SphereStage, ev: SphereEvent) -> int {
    if stage == SphereStage::Start && ev matches SphereEvent::GeometryCreated { created: true, .. } {
        1
    } else {
        0
    }
}

/// Handles this action gives back to the kernel.
pub open spec fn released(a: SphereAction) -> int {
    if a matches SphereAction::Abort { release: true, .. } {
        1
    } else {
        0
    }
}

/// Feeds reports to a build from `stage` on, skipping those the current stage does
/// not expect; yields the final stage, the handles acquired and the handles released.
pub open spec fn run(rec: SphereRecord, stage: SphereStage, evs: Seq<SphereEvent>) -> (SphereStage, int, int)
    decreases evs.len(),
{
    if evs.len() == 0 {
        (stage, 0, 0)
    } else if accepts(stage, evs[0]) {
        let (next, a) = step_spec(rec, stage, evs[0]);
        let (last, acq, rel) = run(rec, next, evs.drop_first());
        (last, acq + acquired(stage, evs[0]), rel + released(a))
    } else {
        run(rec, stage, evs.drop_first())
    }
}

/// The number of handles held in this stage.
pub open spec fn held(stage: SphereStage) -> int {
    if holds_handle(stage) {
        1
    } else {
        0
    }
}

proof fn lemma_run_balance(rec: SphereRecord, stage: SphereStage, evs: Seq<SphereEvent>)
    ensures
        held(stage) + run(rec, stage, evs).1 == held(run(rec, stage, evs).0) + run(rec, stage, evs).2,
        run(rec, stage, evs).1 <= (if stage == SphereStage::Start { 1int } else { 0 }),
        run(rec, stage, evs).1 >= 0,
        run(rec, stage, evs).2 >= 0,
        stage == SphereStage::Failed || stage == SphereStage::Built ==> run(rec, stage, evs).0 == stage,
    decreases evs.len(),
{
    if evs.len() > 0 {
        lemma_run_balance(rec, step_spec(rec, stage, evs[0]).0, evs.drop_first());
        lemma_run_balance(rec, stage, evs.drop_first());
    }
}

/// No handle leaks and none is released twice: whatever the kernel reports, a
/// construction acquires at most one geometry handle; a failed construction has
/// released every handle it acquired, exactly once; a finished one has released
/// none and hands its single handle to the geometry.
pub proof fn lemma_sphere_build_no_leak(rec: SphereRecord, evs: Seq<SphereEvent>)
    ensures
        ({
            let (last, acq, rel) = run(rec, SphereStage::Start, evs);
            &&& 0 <= rel <= acq <= 1
            &&& acq == rel + held(last)
            &&& last == SphereStage::Failed ==> rel == acq
            &&& last == SphereStage::Built ==> acq == 1 && rel == 0
        }),
{
    lemma_run_balance(rec, SphereStage::Start, evs);
}

/// The decisions of building one sphere geometry: which kernel call comes next,
/// and how each failure is surfaced and cleaned up.
pub struct SphereBuild {
    record: SphereRecord,
    stage: SphereStage,
}

impl SphereBuild {
    pub closed spec fn record_spec(&self) -> SphereRecord {
        self.record
    }

    pub closed spec fn stage_spec(&self) -> SphereStage {
        self.stage
    }

    /// The sphere being built.
    pub fn record(&self) -> (r: SphereRecord)
        ensures
            r == self.record_spec(),
    {
        self.record
    }

    /// Where the build stands.
    pub fn stage(&self) -> (r: SphereStage)
        ensures
            r == self.stage_spec(),
    {
        self.stage
    }

    /// Starts a build for a sphere at (x, y, z) with the given radius, all as float
    /// bit patterns. A radius that is zero, negative or NaN is refused, before any
    /// kernel call; otherwise the first action is to create the geometry.
    pub fn try_new(x: u32, y: u32, z: u32, radius: u32) -> (r: Result<(SphereBuild, SphereAction), Failure>)
        ensures
            radius_ok(radius) <==> r is Ok,
            r matches Ok((b, a)) ==> b.record_spec() == (SphereRecord { x, y, z, radius })
                && b.stage_spec() == SphereStage::Start && a == SphereAction::NewGeometry,
            r matches Err(f) ==> f == (Failure { kind: ErrorKind::InvalidRadius, code: KernelError::Success }),
    {
        if 0 < radius && radius <= POSITIVE_INFINITY_BITS {
            Ok((SphereBuild { record: SphereRecord { x, y, z, radius }, stage: SphereStage::Start }, SphereAction::NewGeometry))
        } else {
            Err(Failure { kind: ErrorKind::InvalidRadius, code: KernelError::Success })
        }
    }

    /// Takes the kernel's report on the last action and returns the next action.
    pub fn step(&mut self, ev: SphereEvent) -> (a: SphereAction)
        requires
            accepts(old(self).stage_spec(), ev),
        ensures
            final(self).record_spec() == old(self).record_spec(),
            (final(self).stage_spec(), a) == step_spec(old(self).record_spec(), old(self).stage_spec(), ev),
    {
        let (stage, action) = match ev {
            SphereEvent::GeometryCreated { created, code } => if created {
                (SphereStage::Created, SphereAction::NewVertexBuffer { stride: VERTEX_STRIDE, count: SPHERE_COUNT })
            } else {
                (SphereStage::Failed, SphereAction::Abort {
                    failure: Failure { kind: ErrorKind::GeometryCreation, code },
                    release: false,
                })
            },
            SphereEvent::BufferCreated { created, code } => if created && code == KernelError::Success {
                (SphereStage::Allocated, SphereAction::WriteRecord(self.record))
            } else {
                (SphereStage::Failed, SphereAction::Abort {
                    failure: Failure { kind: ErrorKind::BufferAllocation, code },
                    release: true,
                })
            },
            SphereEvent::RecordWritten => (SphereStage::Written, SphereAction::CommitGeometry),
            SphereEvent::GeometryCommitted { code } => match check(code, ErrorKind::GeometryCommit) {
                Ok(_) => (SphereStage::Built, SphereAction::Finish),
                Err(failure) => (SphereStage::Failed, SphereAction::Abort { failure, release: true }),
            },
        };
        self.stage = stage;
        action
    }
}

} // verus!
