//! The order of a snapshot: the light goes on, the camera takes a still,
//! the light goes off. If the light cannot be switched on, nothing more is
//! done; once it is on, it is switched off whatever the camera did.
use vstd::prelude::*;

verus! {

/// The next thing a snapshot does.
#[derive(Debug, Clone, Copy, PartialEq, Eq, Structural)]
pub enum SnapshotStep {
    LightOn,
    TakePhoto,
    LightOff,
    Done,
}

/// The step after `step`, given whether `step` succeeded.
pub open spec fn next_snapshot_step(step: SnapshotStep, succeeded: bool) -> SnapshotStep {
    match step {
        SnapshotStep::LightOn => if succeeded {
            SnapshotStep::TakePhoto
        } else {
            SnapshotStep::Done
        },
        SnapshotStep::TakePhoto => SnapshotStep::LightOff,
        SnapshotStep::LightOff => SnapshotStep::Done,
        SnapshotStep::Done => SnapshotStep::Done,
    }
}

/// The step after `step`, given whether `step` succeeded.
pub fn snapshot_next(step: SnapshotStep, succeeded: bool) -> (next: SnapshotStep)
    requires
        step != SnapshotStep::Done,
    ensures
        next == next_snapshot_step(step, succeeded),
{
    match step {
        SnapshotStep::LightOn => if succeeded {
            SnapshotStep::TakePhoto
        } else {
            SnapshotStep::Done
        },
        SnapshotStep::TakePhoto => SnapshotStep::LightOff,
        SnapshotStep::LightOff => SnapshotStep::Done,
        SnapshotStep::Done => SnapshotStep::Done,
    }
}

/// A snapshot ends within three steps whatever succeeds; once the light
/// was switched on, the photo is attempted and the light is switched off
/// whatever the camera did; a light that fails to come on stops it at once.
pub proof fn snapshot_switches_light_off(on_ok: bool, photo_ok: bool, off_ok: bool)
    ensures
        !on_ok ==> next_snapshot_step(SnapshotStep::LightOn, on_ok) == SnapshotStep::Done,
        on_ok ==> next_snapshot_step(SnapshotStep::LightOn, on_ok) == SnapshotStep::TakePhoto,
        next_snapshot_step(SnapshotStep::TakePhoto, photo_ok) == SnapshotStep::LightOff,
        next_snapshot_step(
            next_snapshot_step(next_snapshot_step(SnapshotStep::LightOn, on_ok), photo_ok),
            off_ok,
        ) == SnapshotStep::Done,
{
}

} // verus!
