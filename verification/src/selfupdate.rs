//! The self-update protocol: replacing the running executable without ever
//! leaving the live path empty when control returns.
//!
//! The protocol is an explicit state machine with one transition function
//! per state. The file locations it touches are modelled by `SwapLayout`,
//! which records the identity of the binary stored at each location; the
//! surrounding program performs the real file operations in the same order
//! and feeds each outcome back in as an `UpdateEvent`.

use vstd::prelude::*;

verus! {

/// The states of the self-update protocol. `Idle` is both the start and
/// the no-op end: when no newer version exists, the machine terminates
/// there with no side effects.
#[derive(Debug, Clone, Copy, PartialEq, Eq, Structural)]
pub enum UpdateState {
    Idle,
    ResolveLatest,
    Download,
    ExtractToStaging,
    LocateNewBinary,
    BackupCurrent,
    SwapIn,
    Rollback,
    Cleanup,
    Done,
    Failed,
}

/// The file locations the protocol touches. Each slot holds the identity
/// of the binary (or archive) stored there, or nothing when the path does
/// not exist.
#[derive(Debug, Clone, Copy, PartialEq, Eq, Structural)]
pub struct SwapLayout {
    /// The live executable path.
    pub live: Option<u64>,
    /// The backup path beside it.
    pub backup: Option<u64>,
    /// The staged new binary inside the staging directory.
    pub staged: Option<u64>,
    /// The downloaded archive in the cache directory.
    pub archive: Option<u64>,
}

/// The outcome of the outside work done in each state.
#[derive(Debug, Clone, Copy, PartialEq, Eq, Structural)]
pub enum UpdateEvent {
    /// Whether a version newer than the running build exists.
    ResolveChecked { newer: bool },
    /// The verified archive now in the cache, or nothing on failure.
    Downloaded { archive: Option<u64> },
    /// The new binary located in the staging directory after extraction,
    /// or nothing when extraction failed or no binary was found at either
    /// searched depth.
    Staged { binary: Option<u64> },
    /// Whether renaming the live executable to its backup name succeeded.
    BackedUp { ok: bool },
    /// Whether moving (or copying) the staged binary onto the live path
    /// succeeded.
    Swapped { ok: bool },
    /// Whether the backup is to be kept for the next run because the
    /// operating system locks a running executable.
    Cleaned { keep_backup: bool },
}

/// One step of the protocol: the next state and layout for a state, the
/// current layout, and the outcome of the state's outside work. An event
/// that does not belong to the state abandons the update with the layout
/// untouched.
pub open spec fn spec_update_step(
    state: UpdateState,
    layout: SwapLayout,
    event: UpdateEvent,
) -> (UpdateState, SwapLayout) {
    match (state, event) {
        (UpdateState::Idle, UpdateEvent::ResolveChecked { newer }) => (
            if newer {
                UpdateState::Download
            } else {
                UpdateState::Idle
            },
            layout,
        ),
        (UpdateState::ResolveLatest, UpdateEvent::ResolveChecked { newer }) => (
            if newer {
                UpdateState::Download
            } else {
                UpdateState::Idle
            },
            layout,
        ),
        (UpdateState::Download, UpdateEvent::Downloaded { archive }) => match archive {
            Some(a) => (
                UpdateState::ExtractToStaging,
                SwapLayout { archive: Some(a), ..layout },
            ),
            None => (UpdateState::Failed, layout),
        },
        (UpdateState::ExtractToStaging, UpdateEvent::Staged { binary }) => match binary {
            Some(b) => (UpdateState::BackupCurrent, SwapLayout { staged: Some(b), ..layout }),
            None => (UpdateState::Failed, layout),
        },
        (UpdateState::BackupCurrent, UpdateEvent::BackedUp { ok }) => if ok {
            (
                UpdateState::SwapIn,
                SwapLayout { live: None, backup: layout.live, ..layout },
            )
        } else {
            (UpdateState::Failed, layout)
        },
        (UpdateState::SwapIn, UpdateEvent::Swapped { ok }) => if ok {
            (
                UpdateState::Cleanup,
                SwapLayout { live: layout.staged, staged: None, ..layout },
            )
        } else {
            (UpdateState::Rollback, layout)
        },
        (UpdateState::Cleanup, UpdateEvent::Cleaned { keep_backup }) => (
            UpdateState::Done,
            SwapLayout {
                archive: None,
                staged: None,
                backup: if keep_backup {
                    layout.backup
                } else {
                    None
                },
                ..layout
            },
        ),
        _ => (UpdateState::Failed, layout),
    }
}

/// Restore the backup into the live path after a failed swap: the live
/// path holds the pre-update binary again and the stale backup is gone.
pub open spec fn spec_rollback(layout: SwapLayout) -> SwapLayout {
    SwapLayout { live: layout.backup, backup: None, ..layout }
}

/// Drive one step of the protocol. The caller performs the state's
/// outside work, reports its outcome as `event`, and mirrors the returned
/// layout on disk.
pub fn update_step(state: UpdateState, layout: SwapLayout, event: UpdateEvent) -> (r: (
    UpdateState,
    SwapLayout,
))
    ensures
        r == spec_update_step(state, layout, event),
{
    match (state, event) {
        (UpdateState::Idle, UpdateEvent::ResolveChecked { newer }) => (
            if newer {
                UpdateState::Download
            } else {
                UpdateState::Idle
            },
            layout,
        ),
        (UpdateState::ResolveLatest, UpdateEvent::ResolveChecked { newer }) => (
            if newer {
                UpdateState::Download
            } else {
                UpdateState::Idle
            },
            layout,
        ),
        (UpdateState::Download, UpdateEvent::Downloaded { archive }) => match archive {
            Some(a) => (
                UpdateState::ExtractToStaging,
                SwapLayout { archive: Some(a), ..layout },
            ),
            None => (UpdateState::Failed, layout),
        },
        (UpdateState::ExtractToStaging, UpdateEvent::Staged { binary }) => match binary {
            Some(b) => (UpdateState::BackupCurrent, SwapLayout { staged: Some(b), ..layout }),
            None => (UpdateState::Failed, layout),
        },
        (UpdateState::BackupCurrent, UpdateEvent::BackedUp { ok }) => if ok {
            (
                UpdateState::SwapIn,
                SwapLayout { live: None, backup: layout.live, ..layout },
            )
        } else {
            (UpdateState::Failed, layout)
        },
        (UpdateState::SwapIn, UpdateEvent::Swapped { ok }) => if ok {
            (
                UpdateState::Cleanup,
                SwapLayout { live: layout.staged, staged: None, ..layout },
            )
        } else {
            (UpdateState::Rollback, layout)
        },
        (UpdateState::Cleanup, UpdateEvent::Cleaned { keep_backup }) => (
            UpdateState::Done,
            SwapLayout {
                archive: None,
                staged: None,
                backup: if keep_backup {
                    layout.backup
                } else {
                    None
                },
                ..layout
            },
        ),
        _ => (UpdateState::Failed, layout),
    }
}

/// Perform the rollback transition after a failed swap.
pub fn rollback(layout: SwapLayout) -> (r: SwapLayout)
    ensures
        r == spec_rollback(layout),
{
    SwapLayout { live: layout.backup, backup: None, ..layout }
}

/// Law (rollback restores the live executable): whenever the backup step
/// succeeded and the swap then fails, rolling back puts the original
/// binary back at the live path and leaves no backup file behind.
pub proof fn lemma_rollback_restores_live(layout: SwapLayout, swap_event_ok: bool)
    requires
        layout.live is Some,
        !swap_event_ok,
    ensures
        ({
            let (s1, l1) = spec_update_step(
                UpdateState::BackupCurrent,
                layout,
                UpdateEvent::BackedUp { ok: true },
            );
            let (s2, l2) = spec_update_step(s1, l1, UpdateEvent::Swapped { ok: swap_event_ok });
            let l3 = spec_rollback(l2);
            &&& s2 == UpdateState::Rollback
            &&& l3.live == layout.live
            &&& l3.backup is None
        }),
{
}

/// Law (failures before the backup step are side-effect free on the live
/// installation): when resolution, download, extraction, or locating the
/// new binary fails, the live and backup paths are exactly as they were.
pub proof fn lemma_early_failure_harmless(layout: SwapLayout, state: UpdateState, event: UpdateEvent)
    requires
        ({
            ||| (state == UpdateState::Download && event matches UpdateEvent::Downloaded {
                archive: None,
            })
            ||| (state == UpdateState::ExtractToStaging && event matches UpdateEvent::Staged {
                binary: None,
            })
            ||| (state == UpdateState::BackupCurrent && event matches UpdateEvent::BackedUp {
                ok: false,
            })
        }),
    ensures
        ({
            let (s, l) = spec_update_step(state, layout, event);
            s == UpdateState::Failed && l.live == layout.live && l.backup == layout.backup
        }),
{
}

/// Law (a completed protocol run never leaves the live path empty): from a
/// layout with a live binary, stepping the machine from the backup state
/// through any swap outcome, with a rollback on failure and a cleanup on
/// success, ends with some binary at the live path — the new one after a
/// successful swap, the original after a rollback.
pub proof fn lemma_live_never_lost(layout: SwapLayout, swap_ok: bool, keep_backup: bool)
    requires
        layout.live is Some,
        layout.staged is Some,
    ensures
        ({
            let (s1, l1) = spec_update_step(
                UpdateState::BackupCurrent,
                layout,
                UpdateEvent::BackedUp { ok: true },
            );
            let (s2, l2) = spec_update_step(s1, l1, UpdateEvent::Swapped { ok: swap_ok });
            if swap_ok {
                let (s3, l3) = spec_update_step(s2, l2, UpdateEvent::Cleaned { keep_backup });
                s3 == UpdateState::Done && l3.live == layout.staged
            } else {
                let l3 = spec_rollback(l2);
                l3.live == layout.live
            }
        }),
{
}

} // verus!
