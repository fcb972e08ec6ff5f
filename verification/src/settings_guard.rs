//! The discipline around the wrapped library's process-wide settings.
//!
//! The wrapped library keeps one configuration for the whole process. A call
//! that needs its own settings takes a process-wide lock, resets the
//! configuration to the empty baseline, applies its fragments in order, runs,
//! and resets the configuration again before it lets the lock go.
//!
//! The lock, the wrapped library and the operation are the caller's. The
//! guard decides: the caller does what [`SettingsGuard::pending`] asks for,
//! reports what happened to [`SettingsGuard::advance`], and goes on until the
//! guard asks it to return.

use vstd::prelude::*;
use crate::error::{EngineError, ErrorModel};

verus! {

/// Where a guarded call stands.
#[derive(Debug, Clone, Copy, PartialEq, Eq, Structural)]
pub enum GuardPhase {
    /// Waiting for the process-wide lock.
    Locking,
    /// The lock is held; the reset to the baseline is under way.
    Resetting,
    /// The lock is held; the next fragment is being applied.
    Applying,
    /// Every fragment is applied; the operation runs.
    Running,
    /// The reset after the operation is under way.
    Restoring,
    /// The lock is released; the call returns.
    Finished,
}

/// What the guard knows of the process-wide configuration.
#[derive(Debug, Clone, Copy, PartialEq, Eq, Structural)]
pub enum ConfigState {
    /// Nothing: this call has not reset it, or a reset or a fragment has failed.
    Unknown,
    /// The baseline with the first so-many fragments of this call on top.
    /// With none on top it is exactly the empty baseline.
    Applied(usize),
}

/// What the caller reports to the guard.
#[derive(Debug, Clone)]
pub enum GuardEvent {
    /// The lock was taken.
    LockAcquired,
    /// The lock is poisoned: an earlier holder ended in a fault that nobody caught.
    LockPoisoned,
    /// The reset or the fragment that the guard asked for took effect.
    SettingsApplied,
    /// The wrapped library refused the reset or the fragment, with this message.
    SettingsRejected(String),
    /// The operation returned, with success or with a typed error.
    OperationReturned,
    /// The operation ended in a fault, which the caller captured.
    OperationPanicked,
    /// The reset after the operation took effect.
    Restored,
    /// The reset after the operation failed, with this message.
    RestoreFailed(String),
}

/// What the call returns.
#[derive(Debug, Clone)]
pub enum GuardVerdict {
    /// What the operation returned, success or typed error, unchanged.
    OperationResult,
    /// This error.
    Failed(EngineError),
}

/// What the guard asks the caller to do next.
#[derive(Debug, Clone)]
pub enum GuardAction {
    /// Take the process-wide lock.
    AcquireLock,
    /// Reset the configuration to the empty baseline.
    ResetBaseline,
    /// Apply the fragment with this index.
    ApplyPatch(usize),
    /// Run the operation inside a boundary that captures a fault.
    RunOperation,
    /// Reset the configuration to the empty baseline.
    RestoreBaseline,
    /// Let the lock go, where it is held, and return.
    Return(GuardVerdict),
}

pub enum EventModel {
    LockAcquired,
    LockPoisoned,
    SettingsApplied,
    SettingsRejected(Seq<char>),
    OperationReturned,
    OperationPanicked,
    Restored,
    RestoreFailed(Seq<char>),
}

pub enum VerdictModel {
    OperationResult,
    Failed(ErrorModel),
}

pub enum ActionModel {
    AcquireLock,
    ResetBaseline,
    ApplyPatch(usize),
    RunOperation,
    RestoreBaseline,
    Return(VerdictModel),
}

impl View for GuardEvent {
    type V = EventModel;

    open spec fn view(&self) -> EventModel {
        match self {
            GuardEvent::LockAcquired => EventModel::LockAcquired,
            GuardEvent::LockPoisoned => EventModel::LockPoisoned,
            GuardEvent::SettingsApplied => EventModel::SettingsApplied,
            GuardEvent::SettingsRejected(m) => EventModel::SettingsRejected(m@),
            GuardEvent::OperationReturned => EventModel::OperationReturned,
            GuardEvent::OperationPanicked => EventModel::OperationPanicked,
            GuardEvent::Restored => EventModel::Restored,
            GuardEvent::RestoreFailed(m) => EventModel::RestoreFailed(m@),
        }
    }
}

impl View for GuardVerdict {
    type V = VerdictModel;

    open spec fn view(&self) -> VerdictModel {
        match self {
            GuardVerdict::OperationResult => VerdictModel::OperationResult,
            GuardVerdict::Failed(e) => VerdictModel::Failed(e@),
        }
    }
}

impl View for GuardAction {
    type V = ActionModel;

    open spec fn view(&self) -> ActionModel {
        match self {
            GuardAction::AcquireLock => ActionModel::AcquireLock,
            GuardAction::ResetBaseline => ActionModel::ResetBaseline,
            GuardAction::ApplyPatch(i) => ActionModel::ApplyPatch(*i),
            GuardAction::RunOperation => ActionModel::RunOperation,
            GuardAction::RestoreBaseline => ActionModel::RestoreBaseline,
            GuardAction::Return(v) => ActionModel::Return(v@),
        }
    }
}

/// The state of a guarded call, as mathematical values.
pub struct GuardModel {
    pub phase: GuardPhase,
    /// The number of fragments of this call.
    pub patch_count: usize,
    /// The index of the fragment that is applied next.
    pub next_patch: usize,
    /// Whether this call holds the lock.
    pub lock_held: bool,
    /// Whether this call has ever taken the lock.
    pub lock_acquired: bool,
    /// Whether the reset after the operation failed.
    pub restore_failed: bool,
    pub config: ConfigState,
    /// The first failure of the call, where there is one.
    pub failure: Option<ErrorModel>,
}

/// The guard of one call.
pub struct SettingsGuard {
    phase: GuardPhase,
    patch_count: usize,
    next_patch: usize,
    lock_held: bool,
    lock_acquired: bool,
    restore_failed: bool,
    config: ConfigState,
    failure: Option<EngineError>,
}

impl View for SettingsGuard {
    type V = GuardModel;

    closed spec fn view(&self) -> GuardModel {
        GuardModel {
            phase: self.phase,
            patch_count: self.patch_count,
            next_patch: self.next_patch,
            lock_held: self.lock_held,
            lock_acquired: self.lock_acquired,
            restore_failed: self.restore_failed,
            config: self.config,
            failure: match self.failure {
                Some(e) => Some(e@),
                None => None,
            },
        }
    }
}

/// The message of the failure for a poisoned lock.
pub open spec fn poisoned_message() -> Seq<char> {
    "settings mutex poisoned"@
}

/// The message of the failure for a captured fault.
pub open spec fn panicked_message() -> Seq<char> {
    "c2pa adapter panicked"@
}

/// The state in which a call with `patch_count` fragments starts.
pub open spec fn initial_state(patch_count: usize) -> GuardModel {
    GuardModel {
        phase: GuardPhase::Locking,
        patch_count,
        next_patch: 0,
        lock_held: false,
        lock_acquired: false,
        restore_failed: false,
        config: ConfigState::Unknown,
        failure: None,
    }
}

/// The phase that follows when the configuration holds the first `applied`
/// fragments: the operation runs once all are applied.
pub open spec fn phase_after(applied: usize, patch_count: usize) -> GuardPhase {
    if applied >= patch_count {
        GuardPhase::Running
    } else {
        GuardPhase::Applying
    }
}

/// The state after `event`. An event that does not answer what the guard
/// asked for leaves the state as it is.
pub open spec fn step(s: GuardModel, event: EventModel) -> GuardModel {
    match (s.phase, event) {
        (GuardPhase::Locking, EventModel::LockAcquired) => GuardModel {
            phase: GuardPhase::Resetting,
            lock_held: true,
            lock_acquired: true,
            ..s
        },
        (GuardPhase::Locking, EventModel::LockPoisoned) => GuardModel {
            phase: GuardPhase::Finished,
            failure: Some(ErrorModel::Config(poisoned_message())),
            ..s
        },
        (GuardPhase::Resetting, EventModel::SettingsApplied) => GuardModel {
            phase: phase_after(0, s.patch_count),
            next_patch: 0,
            config: ConfigState::Applied(0),
            ..s
        },
        (GuardPhase::Resetting, EventModel::SettingsRejected(m)) => GuardModel {
            phase: GuardPhase::Restoring,
            config: ConfigState::Unknown,
            failure: Some(ErrorModel::C2pa(m)),
            ..s
        },
        (GuardPhase::Applying, EventModel::SettingsApplied) => if s.next_patch < s.patch_count {
            GuardModel {
                phase: phase_after((s.next_patch + 1) as usize, s.patch_count),
                next_patch: (s.next_patch + 1) as usize,
                config: ConfigState::Applied((s.next_patch + 1) as usize),
                ..s
            }
        } else {
            s
        },
        (GuardPhase::Applying, EventModel::SettingsRejected(m)) => GuardModel {
            phase: GuardPhase::Restoring,
            config: ConfigState::Unknown,
            failure: Some(ErrorModel::C2pa(m)),
            ..s
        },
        (GuardPhase::Running, EventModel::OperationReturned) => GuardModel {
            phase: GuardPhase::Restoring,
            ..s
        },
        (GuardPhase::Running, EventModel::OperationPanicked) => GuardModel {
            phase: GuardPhase::Restoring,
            failure: Some(ErrorModel::Panic(panicked_message())),
            ..s
        },
        (GuardPhase::Restoring, EventModel::Restored) => GuardModel {
            phase: GuardPhase::Finished,
            lock_held: false,
            config: ConfigState::Applied(0),
            ..s
        },
        (GuardPhase::Restoring, EventModel::RestoreFailed(m)) => GuardModel {
            phase: GuardPhase::Finished,
            lock_held: false,
            restore_failed: true,
            config: ConfigState::Unknown,
            ..s
        },
        _ => s,
    }
}

/// What a state asks the caller to do.
pub open spec fn action_of(s: GuardModel) -> ActionModel {
    match s.phase {
        GuardPhase::Locking => ActionModel::AcquireLock,
        GuardPhase::Resetting => ActionModel::ResetBaseline,
        GuardPhase::Applying => ActionModel::ApplyPatch(s.next_patch),
        GuardPhase::Running => ActionModel::RunOperation,
        GuardPhase::Restoring => ActionModel::RestoreBaseline,
        GuardPhase::Finished => ActionModel::Return(
            match s.failure {
                Some(e) => VerdictModel::Failed(e),
                None => VerdictModel::OperationResult,
            },
        ),
    }
}

impl SettingsGuard {
    /// The guard of a call with `patch_count` fragments, before anything is done.
    pub fn begin(patch_count: usize) -> (guard: SettingsGuard)
        ensures
            guard@ == initial_state(patch_count),
            consistent(guard@),
    {
        SettingsGuard {
            phase: GuardPhase::Locking,
            patch_count,
            next_patch: 0,
            lock_held: false,
            lock_acquired: false,
            restore_failed: false,
            config: ConfigState::Unknown,
            failure: None,
        }
    }

    /// Where the call stands.
    pub fn phase(&self) -> (phase: GuardPhase)
        ensures
            phase == self@.phase,
    {
        self.phase
    }

    /// What the guard knows of the configuration.
    pub fn config(&self) -> (config: ConfigState)
        ensures
            config == self@.config,
    {
        self.config
    }

    /// Whether the call holds the lock.
    pub fn holds_lock(&self) -> (held: bool)
        ensures
            held == self@.lock_held,
    {
        self.lock_held
    }

    /// Whether the call has ever taken the lock.
    pub fn acquired_lock(&self) -> (acquired: bool)
        ensures
            acquired == self@.lock_acquired,
    {
        self.lock_acquired
    }

    /// Whether the reset after the operation failed.
    pub fn restore_failed(&self) -> (failed: bool)
        ensures
            failed == self@.restore_failed,
    {
        self.restore_failed
    }

    /// What the caller has to do now.
    pub fn pending(&self) -> (action: GuardAction)
        ensures
            action@ == action_of(self@),
    {
        match self.phase {
            GuardPhase::Locking => GuardAction::AcquireLock,
            GuardPhase::Resetting => GuardAction::ResetBaseline,
            GuardPhase::Applying => GuardAction::ApplyPatch(self.next_patch),
            GuardPhase::Running => GuardAction::RunOperation,
            GuardPhase::Restoring => GuardAction::RestoreBaseline,
            GuardPhase::Finished => GuardAction::Return(
                match &self.failure {
                    Some(e) => GuardVerdict::Failed(e.clone_error()),
                    None => GuardVerdict::OperationResult,
                },
            ),
        }
    }

    /// Takes the caller's report of what happened and says what to do next.
    /// The guard stays a state that a call can reach.
    pub fn advance(&mut self, event: GuardEvent) -> (action: GuardAction)
        ensures
            final(self)@ == step(old(self)@, event@),
            action@ == action_of(final(self)@),
            consistent(old(self)@) ==> consistent(final(self)@),
    {
        match (self.phase, event) {
            (GuardPhase::Locking, GuardEvent::LockAcquired) => {
                self.phase = GuardPhase::Resetting;
                self.lock_held = true;
                self.lock_acquired = true;
            },
            (GuardPhase::Locking, GuardEvent::LockPoisoned) => {
                self.phase = GuardPhase::Finished;
                self.failure = Some(EngineError::Config("settings mutex poisoned".to_string()));
            },
            (GuardPhase::Resetting, GuardEvent::SettingsApplied) => {
                self.next_patch = 0;
                self.config = ConfigState::Applied(0);
                self.phase = if 0 >= self.patch_count {
                    GuardPhase::Running
                } else {
                    GuardPhase::Applying
                };
            },
            (GuardPhase::Resetting, GuardEvent::SettingsRejected(m)) => {
                self.phase = GuardPhase::Restoring;
                self.config = ConfigState::Unknown;
                self.failure = Some(EngineError::C2pa(m));
            },
            (GuardPhase::Applying, GuardEvent::SettingsApplied) => {
                if self.next_patch < self.patch_count {
                    let applied = self.next_patch + 1;
                    self.next_patch = applied;
                    self.config = ConfigState::Applied(applied);
                    self.phase = if applied >= self.patch_count {
                        GuardPhase::Running
                    } else {
                        GuardPhase::Applying
                    };
                }
            },
            (GuardPhase::Applying, GuardEvent::SettingsRejected(m)) => {
                self.phase = GuardPhase::Restoring;
                self.config = ConfigState::Unknown;
                self.failure = Some(EngineError::C2pa(m));
            },
            (GuardPhase::Running, GuardEvent::OperationReturned) => {
                self.phase = GuardPhase::Restoring;
            },
            (GuardPhase::Running, GuardEvent::OperationPanicked) => {
                self.phase = GuardPhase::Restoring;
                self.failure = Some(EngineError::Panic("c2pa adapter panicked".to_string()));
            },
            (GuardPhase::Restoring, GuardEvent::Restored) => {
                self.phase = GuardPhase::Finished;
                self.lock_held = false;
                self.config = ConfigState::Applied(0);
            },
            (GuardPhase::Restoring, GuardEvent::RestoreFailed(_)) => {
                self.phase = GuardPhase::Finished;
                self.lock_held = false;
                self.restore_failed = true;
                self.config = ConfigState::Unknown;
            },
            _ => {},
        }
        self.pending()
    }
}

/// The state after the events of `events`, one after another.
pub open spec fn run(s: GuardModel, events: Seq<EventModel>) -> GuardModel
    decreases events.len(),
{
    if events.len() == 0 {
        s
    } else {
        step(run(s, events.drop_last()), events.last())
    }
}

/// The configuration is exactly the empty baseline.
pub open spec fn at_baseline(s: GuardModel) -> bool {
    s.config == ConfigState::Applied(0)
}

/// The action reads or changes the process-wide configuration.
pub open spec fn touches_configuration(a: ActionModel) -> bool {
    a is ResetBaseline || a is ApplyPatch || a is RunOperation || a is RestoreBaseline
}

/// What holds of every state that a call can reach.
pub open spec fn consistent(s: GuardModel) -> bool {
    match s.phase {
        GuardPhase::Locking => !s.lock_held && !s.lock_acquired && s.failure is None
            && s.config is Unknown && !s.restore_failed,
        GuardPhase::Resetting => s.lock_held && s.lock_acquired && s.failure is None
            && !s.restore_failed,
        GuardPhase::Applying => s.lock_held && s.lock_acquired && s.failure is None
            && !s.restore_failed && s.next_patch < s.patch_count && s.config
            == ConfigState::Applied(s.next_patch),
        GuardPhase::Running => s.lock_held && s.lock_acquired && s.failure is None
            && !s.restore_failed && s.config == ConfigState::Applied(s.patch_count),
        GuardPhase::Restoring => s.lock_held && s.lock_acquired && !s.restore_failed,
        GuardPhase::Finished => !s.lock_held && (s.lock_acquired && !s.restore_failed
            ==> at_baseline(s)) && (!s.lock_acquired ==> s.failure == Some(
            ErrorModel::Config(poisoned_message()),
        )),
    }
}

/// One event keeps a state consistent.
pub proof fn lemma_step_consistent(s: GuardModel, event: EventModel)
    requires
        consistent(s),
    ensures
        consistent(step(s, event)),
{
}

/// Every state that a call reaches is consistent.
pub proof fn lemma_run_consistent(patch_count: usize, events: Seq<EventModel>)
    ensures
        consistent(run(initial_state(patch_count), events)),
    decreases events.len(),
{
    if events.len() > 0 {
        lemma_run_consistent(patch_count, events.drop_last());
        lemma_step_consistent(run(initial_state(patch_count), events.drop_last()), events.last());
    }
}

/// After a call that took the lock and whose final reset took effect, the
/// configuration is exactly the empty baseline and no fragment is left over:
/// whether the operation succeeded, returned a typed error or ended in a
/// captured fault, and whether or not every fragment could be applied.
pub proof fn lemma_baseline_after_call(patch_count: usize, events: Seq<EventModel>)
    requires
        run(initial_state(patch_count), events).phase is Finished,
        run(initial_state(patch_count), events).lock_acquired,
        !run(initial_state(patch_count), events).restore_failed,
    ensures
        at_baseline(run(initial_state(patch_count), events)),
{
    lemma_run_consistent(patch_count, events);
}

/// The guard asks for nothing that reads or changes the configuration unless
/// the call holds the lock, and a call that has finished holds it no more. So
/// the window from the first reset to the last of one call lies within the
/// time for which that call holds the lock.
pub proof fn lemma_configuration_touched_under_lock(patch_count: usize, events: Seq<EventModel>)
    ensures
        touches_configuration(action_of(run(initial_state(patch_count), events))) ==> run(
            initial_state(patch_count),
            events,
        ).lock_held,
        run(initial_state(patch_count), events).phase is Finished ==> !run(
            initial_state(patch_count),
            events,
        ).lock_held,
{
    lemma_run_consistent(patch_count, events);
}

/// A call that took the lock does not finish without its final reset: the
/// only step into `Finished` from a state that holds the lock is the answer
/// to `RestoreBaseline`.
pub proof fn lemma_finish_goes_through_restore(s: GuardModel, event: EventModel)
    requires
        consistent(s),
        !(s.phase is Finished),
        step(s, event).phase is Finished,
    ensures
        s.phase is Restoring || (s.phase is Locking && event is LockPoisoned),
        s.phase is Restoring ==> action_of(s) is RestoreBaseline,
{
}

/// The fragments are applied from the first on, one by one, and the
/// operation runs only on the baseline with all of them on top. After a
/// fragment is refused no later one is tried: the next action is the reset.
pub proof fn lemma_fragments_in_order(s: GuardModel, event: EventModel)
    requires
        consistent(s),
    ensures
        action_of(s) matches ActionModel::ApplyPatch(i) ==> s.config == ConfigState::Applied(i)
            && i < s.patch_count,
        action_of(s) is RunOperation ==> s.config == ConfigState::Applied(s.patch_count),
        (s.phase is Applying || s.phase is Resetting) && event is SettingsRejected ==> action_of(
            step(s, event),
        ) is RestoreBaseline,
{
}

/// What the call returns: the operation's own result where nothing failed
/// around it, and otherwise the first failure. A failed final reset changes
/// neither.
pub proof fn lemma_restore_keeps_outcome(s: GuardModel, event: EventModel)
    requires
        s.phase is Restoring,
        event is Restored || event is RestoreFailed,
    ensures
        step(s, event).failure == s.failure,
        action_of(step(s, event)) == ActionModel::Return(
            match s.failure {
                Some(e) => VerdictModel::Failed(e),
                None => VerdictModel::OperationResult,
            },
        ),
{
}

} // verus!
