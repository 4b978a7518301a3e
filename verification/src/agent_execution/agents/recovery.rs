//! The decisions of two scheduler clean-ups: recovering after a scheduling task
//! panicked, and settling one queued input that a stop cancelled. Each step takes
//! the clean-up's state and the outcome of the last piece of outside work to the
//! next state and the work to do.
use crate::domain::scheduling::InvocationStage;
use vstd::prelude::*;

verus! {

/// Where a panic recovery stands.
#[derive(Clone, Copy, Debug, PartialEq, Eq, Structural)]
pub enum RecoveryPhase {
    /// Shutting the session down after the panic.
    CleaningUp,
    /// Reading the input's last scheduling evidence.
    ReadingMetadata,
    /// Retaining the panic as the input's failure.
    RetainingFailure,
    /// Asking history for the settlement cause of a running input.
    ReadingHistory,
    /// Saving the input's settlement evidence.
    RecordingSettlement,
    /// Cancelling the inputs still queued.
    CancellingQueue,
    /// Settling the input's receipt.
    SettlingSubmission,
    /// The recovery is over.
    Done,
}

/// A panic recovery's own state.
#[derive(Clone, Copy, Debug, PartialEq, Eq, Structural)]
pub struct PanicRecovery {
    /// Where the recovery stands.
    pub phase: RecoveryPhase,
    /// The input has saved scheduling evidence.
    pub found: bool,
    /// The input's last recorded stage, when found.
    pub last: InvocationStage,
    /// Reading or saving the settlement evidence failed.
    pub settlement_failed: bool,
    /// Cancelling the rest of the queue failed to save.
    pub queue_failed: bool,
}

/// The outcome of the outside work a panic recovery asked for.
#[derive(Clone, Copy, Debug, PartialEq, Eq, Structural)]
pub enum RecoveryEvent {
    /// The shutdown finished; its failure is kept beside the panic.
    CleanedUp,
    /// The input's last scheduling evidence, if any.
    MetadataRead { found: bool, last: InvocationStage },
    /// The failure was retained.
    FailureRetained,
    /// History gave the settlement cause, or failed.
    HistoryRead { ok: bool },
    /// The settlement evidence was saved, or not.
    SettlementRecorded { saved: bool },
    /// The rest of the queue was cancelled; whether that failed to save.
    QueueCancelled { storage_failed: bool },
    /// The receipt was settled.
    SubmissionSettled,
}

/// The work a panic recovery step asks for.
#[derive(Clone, Copy, Debug, PartialEq, Eq, Structural)]
pub enum RecoveryWork {
    /// Nothing: the outcome was not waited for.
    Nothing,
    /// Read the input's last scheduling evidence.
    ReadMetadata,
    /// Retain the panic as the input's failure.
    RetainFailure,
    /// Ask history for the settlement cause.
    ReadHistory,
    /// Save the settlement evidence: a queued input failed dispatch, a running one
    /// takes history's cause.
    RecordSettlement { dispatch_failed: bool },
    /// Cancel the inputs still queued, with the close's cause and caller.
    CancelQueue,
    /// Settle the input's receipt.
    SettleSubmission,
    /// Answer with the retained failure.
    Answer,
}

/// The state a recovery starts in, once the shutdown is started.
pub open spec fn recovery_start() -> PanicRecovery {
    PanicRecovery {
        phase: RecoveryPhase::CleaningUp,
        found: false,
        last: InvocationStage::Queued,
        settlement_failed: false,
        queue_failed: false,
    }
}

/// The next state and the work to do after `e` in state `t`. An outcome the
/// recovery does not wait for in `t` changes nothing.
pub open spec fn recovery_transition(t: PanicRecovery, e: RecoveryEvent) -> (PanicRecovery, RecoveryWork) {
    match (t.phase, e) {
        (RecoveryPhase::CleaningUp, RecoveryEvent::CleanedUp) => (
            PanicRecovery { phase: RecoveryPhase::ReadingMetadata, ..t },
            RecoveryWork::ReadMetadata,
        ),
        (RecoveryPhase::ReadingMetadata, RecoveryEvent::MetadataRead { found, last }) => (
            PanicRecovery { phase: RecoveryPhase::RetainingFailure, found, last, ..t },
            RecoveryWork::RetainFailure,
        ),
        (RecoveryPhase::RetainingFailure, RecoveryEvent::FailureRetained) => if t.found && t.last
            == InvocationStage::Queued {
            (
                PanicRecovery { phase: RecoveryPhase::RecordingSettlement, ..t },
                RecoveryWork::RecordSettlement { dispatch_failed: true },
            )
        } else if t.found && t.last == InvocationStage::Running {
            (PanicRecovery { phase: RecoveryPhase::ReadingHistory, ..t }, RecoveryWork::ReadHistory)
        } else {
            (PanicRecovery { phase: RecoveryPhase::CancellingQueue, ..t }, RecoveryWork::CancelQueue)
        },
        (RecoveryPhase::ReadingHistory, RecoveryEvent::HistoryRead { ok }) => if ok {
            (
                PanicRecovery { phase: RecoveryPhase::RecordingSettlement, ..t },
                RecoveryWork::RecordSettlement { dispatch_failed: false },
            )
        } else {
            (
                PanicRecovery { phase: RecoveryPhase::CancellingQueue, settlement_failed: true, ..t },
                RecoveryWork::CancelQueue,
            )
        },
        (RecoveryPhase::RecordingSettlement, RecoveryEvent::SettlementRecorded { saved }) => (
            PanicRecovery { phase: RecoveryPhase::CancellingQueue, settlement_failed: !saved, ..t },
            RecoveryWork::CancelQueue,
        ),
        (RecoveryPhase::CancellingQueue, RecoveryEvent::QueueCancelled { storage_failed }) => if t.found {
            (
                PanicRecovery { phase: RecoveryPhase::SettlingSubmission, queue_failed: storage_failed, ..t },
                RecoveryWork::SettleSubmission,
            )
        } else {
            (PanicRecovery { phase: RecoveryPhase::Done, queue_failed: storage_failed, ..t }, RecoveryWork::Answer)
        },
        (RecoveryPhase::SettlingSubmission, RecoveryEvent::SubmissionSettled) => (
            PanicRecovery { phase: RecoveryPhase::Done, ..t },
            RecoveryWork::Answer,
        ),
        _ => (t, RecoveryWork::Nothing),
    }
}

/// Takes a panic recovery from `t` past the outcome `e`; see [`recovery_transition`].
pub fn recovery_step(t: PanicRecovery, e: RecoveryEvent) -> (r: (PanicRecovery, RecoveryWork))
    ensures
        r == recovery_transition(t, e),
{
    match (t.phase, e) {
        (RecoveryPhase::CleaningUp, RecoveryEvent::CleanedUp) => (
            PanicRecovery { phase: RecoveryPhase::ReadingMetadata, ..t },
            RecoveryWork::ReadMetadata,
        ),
        (RecoveryPhase::ReadingMetadata, RecoveryEvent::MetadataRead { found, last }) => (
            PanicRecovery { phase: RecoveryPhase::RetainingFailure, found, last, ..t },
            RecoveryWork::RetainFailure,
        ),
        (RecoveryPhase::RetainingFailure, RecoveryEvent::FailureRetained) => if t.found && t.last
            == InvocationStage::Queued {
            (
                PanicRecovery { phase: RecoveryPhase::RecordingSettlement, ..t },
                RecoveryWork::RecordSettlement { dispatch_failed: true },
            )
        } else if t.found && t.last == InvocationStage::Running {
            (PanicRecovery { phase: RecoveryPhase::ReadingHistory, ..t }, RecoveryWork::ReadHistory)
        } else {
            (PanicRecovery { phase: RecoveryPhase::CancellingQueue, ..t }, RecoveryWork::CancelQueue)
        },
        (RecoveryPhase::ReadingHistory, RecoveryEvent::HistoryRead { ok }) => if ok {
            (
                PanicRecovery { phase: RecoveryPhase::RecordingSettlement, ..t },
                RecoveryWork::RecordSettlement { dispatch_failed: false },
            )
        } else {
            (
                PanicRecovery { phase: RecoveryPhase::CancellingQueue, settlement_failed: true, ..t },
                RecoveryWork::CancelQueue,
            )
        },
        (RecoveryPhase::RecordingSettlement, RecoveryEvent::SettlementRecorded { saved }) => (
            PanicRecovery { phase: RecoveryPhase::CancellingQueue, settlement_failed: !saved, ..t },
            RecoveryWork::CancelQueue,
        ),
        (RecoveryPhase::CancellingQueue, RecoveryEvent::QueueCancelled { storage_failed }) => if t.found {
            (
                PanicRecovery { phase: RecoveryPhase::SettlingSubmission, queue_failed: storage_failed, ..t },
                RecoveryWork::SettleSubmission,
            )
        } else {
            (PanicRecovery { phase: RecoveryPhase::Done, queue_failed: storage_failed, ..t }, RecoveryWork::Answer)
        },
        (RecoveryPhase::SettlingSubmission, RecoveryEvent::SubmissionSettled) => (
            PanicRecovery { phase: RecoveryPhase::Done, ..t },
            RecoveryWork::Answer,
        ),
        _ => (t, RecoveryWork::Nothing),
    }
}

impl PanicRecovery {
    /// The state a recovery starts in: cleaning up.
    pub fn start() -> (r: Self)
        ensures
            r == recovery_start(),
    {
        PanicRecovery {
            phase: RecoveryPhase::CleaningUp,
            found: false,
            last: InvocationStage::Queued,
            settlement_failed: false,
            queue_failed: false,
        }
    }
}

/// A panic recovery settles evidence only for an input last seen queued or
/// running, records a queued one as a failed dispatch, and always cancels the rest
/// of the queue before it answers.
pub proof fn law_recovery_settles_only_unsettled_inputs(t: PanicRecovery, e: RecoveryEvent)
    ensures
        ({
            let r = recovery_transition(t, e);
            &&& r.1 == (RecoveryWork::RecordSettlement { dispatch_failed: true }) ==> r.0.found && r.0.last
                == InvocationStage::Queued
            &&& r.1 == RecoveryWork::ReadHistory ==> r.0.found && r.0.last == InvocationStage::Running
            &&& r.1 == (RecoveryWork::RecordSettlement { dispatch_failed: false }) ==> t.phase
                == RecoveryPhase::ReadingHistory
            &&& r.1 == RecoveryWork::Answer && t.phase != RecoveryPhase::SettlingSubmission ==> t.phase
                == RecoveryPhase::CancellingQueue
        }),
{
}

/// Where the settlement of one cancelled queue input stands.
#[derive(Clone, Copy, Debug, PartialEq, Eq, Structural)]
pub enum DrainPhase {
    /// Reading whether an earlier drain already recorded it cancelled.
    ReadingLast,
    /// Saving its cancellation evidence.
    Saving,
    /// Settling its receipt with the failure.
    SettlingReceipt,
    /// Its receipt is answered.
    Done,
}

/// The settlement of one cancelled queue input.
#[derive(Clone, Copy, Debug, PartialEq, Eq, Structural)]
pub struct DrainItem {
    /// Where the settlement stands.
    pub phase: DrainPhase,
    /// An earlier drain recorded the cancellation and was interrupted.
    pub recovering: bool,
    /// Its cancellation evidence failed to save.
    pub save_failed: bool,
}

/// The outcome of the outside work a drained input asked for.
#[derive(Clone, Copy, Debug, PartialEq, Eq, Structural)]
pub enum DrainEvent {
    /// Whether the input's last recorded stage is already Cancelled.
    LastRead { recovering: bool },
    /// Its cancellation evidence was saved, or not.
    Saved { ok: bool },
    /// Its receipt was settled.
    ReceiptSettled,
}

/// The work a drained input's step asks for.
#[derive(Clone, Copy, Debug, PartialEq, Eq, Structural)]
pub enum DrainWork {
    /// Nothing: the outcome was not waited for.
    Nothing,
    /// Save the cancellation, with the input's own first stop or the drain's cause.
    SaveCancellation,
    /// Settle the receipt with the failure.
    SettleReceipt,
    /// Answer the receipt.
    Answer,
}

/// The state one drained input starts in.
pub open spec fn drain_start() -> DrainItem {
    DrainItem { phase: DrainPhase::ReadingLast, recovering: false, save_failed: false }
}

/// The next state and the work after `e` for one drained input. A cancellation an
/// interrupted drain already recorded is not saved again, and its receipt fails;
/// a saved cancellation answers Closed without touching the receipt again.
pub open spec fn drain_transition(t: DrainItem, e: DrainEvent) -> (DrainItem, DrainWork) {
    match (t.phase, e) {
        (DrainPhase::ReadingLast, DrainEvent::LastRead { recovering }) => if recovering {
            (DrainItem { phase: DrainPhase::SettlingReceipt, recovering: true, ..t }, DrainWork::SettleReceipt)
        } else {
            (DrainItem { phase: DrainPhase::Saving, ..t }, DrainWork::SaveCancellation)
        },
        (DrainPhase::Saving, DrainEvent::Saved { ok }) => if ok {
            (DrainItem { phase: DrainPhase::Done, ..t }, DrainWork::Answer)
        } else {
            (DrainItem { phase: DrainPhase::SettlingReceipt, save_failed: true, ..t }, DrainWork::SettleReceipt)
        },
        (DrainPhase::SettlingReceipt, DrainEvent::ReceiptSettled) => (
            DrainItem { phase: DrainPhase::Done, ..t },
            DrainWork::Answer,
        ),
        _ => (t, DrainWork::Nothing),
    }
}

/// Takes one drained input from `t` past `e`; see [`drain_transition`].
pub fn drain_step(t: DrainItem, e: DrainEvent) -> (r: (DrainItem, DrainWork))
    ensures
        r == drain_transition(t, e),
{
    match (t.phase, e) {
        (DrainPhase::ReadingLast, DrainEvent::LastRead { recovering }) => if recovering {
            (DrainItem { phase: DrainPhase::SettlingReceipt, recovering: true, ..t }, DrainWork::SettleReceipt)
        } else {
            (DrainItem { phase: DrainPhase::Saving, ..t }, DrainWork::SaveCancellation)
        },
        (DrainPhase::Saving, DrainEvent::Saved { ok }) => if ok {
            (DrainItem { phase: DrainPhase::Done, ..t }, DrainWork::Answer)
        } else {
            (DrainItem { phase: DrainPhase::SettlingReceipt, save_failed: true, ..t }, DrainWork::SettleReceipt)
        },
        (DrainPhase::SettlingReceipt, DrainEvent::ReceiptSettled) => (
            DrainItem { phase: DrainPhase::Done, ..t },
            DrainWork::Answer,
        ),
        _ => (t, DrainWork::Nothing),
    }
}

impl DrainItem {
    /// The state one drained input starts in.
    pub fn start() -> (r: Self)
        ensures
            r == drain_start(),
    {
        DrainItem { phase: DrainPhase::ReadingLast, recovering: false, save_failed: false }
    }
}

/// A drained input's cancellation is saved at most once: an input an interrupted
/// drain already recorded is never saved again.
pub proof fn law_drained_cancellation_is_saved_once(t: DrainItem, e: DrainEvent)
    ensures
        drain_transition(drain_start(), DrainEvent::LastRead { recovering: true }).1 == DrainWork::SettleReceipt,
        drain_transition(t, e).1 == DrainWork::SaveCancellation ==> t.phase == DrainPhase::ReadingLast
            && e == (DrainEvent::LastRead { recovering: false }),
{
}

} // verus!
