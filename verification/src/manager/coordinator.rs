//! Coordination of port changes: one operation at a time, with cooperative
//! cancellation and a re-prioritisation flag.
//!
//! Rules kept here:
//! - only one port-changing operation may run at a time;
//! - a manual port change that arrives while an automatic priority switch runs
//!   cancels that switch and asks for the priorities to be applied again;
//! - finishing (or failing) an operation frees the coordinator.

use vstd::prelude::*;

verus! {

/// Kind of a port-changing operation.
#[derive(Clone, Copy, Debug, PartialEq, Eq, Structural)]
pub enum SwitchKind {
    /// A port change requested by the user.
    ManualSetPort,
    /// An automatic switch driven by port priorities.
    PriorityAuto,
}

/// Abstract state of a coordinator.
pub struct SwitchState {
    /// The operation in progress, if any.
    pub in_progress: Option<SwitchKind>,
    /// Whether cancellation of the running operation was requested.
    pub cancel: bool,
    /// Whether priorities must be applied again.
    pub reprioritize: bool,
}

/// The idle state of a fresh coordinator.
pub open spec fn initial_state() -> SwitchState {
    SwitchState { in_progress: None, cancel: false, reprioritize: false }
}

/// State after `acquire(kind)`, or `None` when the request is refused.
pub open spec fn acquire_spec(s: SwitchState, kind: SwitchKind) -> Option<SwitchState> {
    if s.in_progress is Some {
        None
    } else {
        Some(SwitchState { in_progress: Some(kind), cancel: false, reprioritize: s.reprioritize })
    }
}

/// State after the holder of the coordinator releases it.
pub open spec fn release_spec(s: SwitchState) -> SwitchState {
    SwitchState { in_progress: None, ..s }
}

/// Whether `interrupt_auto` finds an automatic switch to interrupt.
pub open spec fn is_auto_running(s: SwitchState) -> bool {
    s.in_progress == Some(SwitchKind::PriorityAuto)
}

/// State after `interrupt_auto`.
pub open spec fn interrupt_auto_spec(s: SwitchState) -> SwitchState {
    if is_auto_running(s) {
        SwitchState { cancel: true, reprioritize: true, ..s }
    } else {
        s
    }
}

/// Error text of a refused `acquire`.
pub open spec fn busy_message() -> Seq<char> {
    "a switch operation is already in progress"@
}

/// Coordinator of port-changing operations.
pub struct SwitchCoordinator {
    in_progress: Option<SwitchKind>,
    cancel: bool,
    reprioritize: bool,
}

/// Proof that the coordinator was acquired; hand it back with `release`.
pub struct SwitchGuard {
    kind: SwitchKind,
}

impl SwitchGuard {
    /// The kind of operation this guard was issued for.
    pub closed spec fn spec_kind(&self) -> SwitchKind {
        self.kind
    }

    /// The kind of operation this guard was issued for.
    pub fn kind(&self) -> (k: SwitchKind)
        ensures
            k == self.spec_kind(),
    {
        self.kind
    }
}

impl View for SwitchCoordinator {
    type V = SwitchState;

    closed spec fn view(&self) -> SwitchState {
        SwitchState {
            in_progress: self.in_progress,
            cancel: self.cancel,
            reprioritize: self.reprioritize,
        }
    }
}

impl Default for SwitchCoordinator {
    /// An idle coordinator.
    fn default() -> (c: Self)
        ensures
            c@ == initial_state(),
    {
        Self::new()
    }
}

impl SwitchCoordinator {
    /// Creates an idle coordinator.
    pub fn new() -> (c: Self)
        ensures
            c@ == initial_state(),
    {
        SwitchCoordinator { in_progress: None, cancel: false, reprioritize: false }
    }

    /// Tries to take the coordinator for an operation of `kind`.
    ///
    /// Refused while another operation holds it; on success the cancel request
    /// of any earlier operation is cleared.
    pub fn acquire(&mut self, kind: SwitchKind) -> (r: Result<SwitchGuard, String>)
        ensures
            acquire_spec(old(self)@, kind) matches Some(next) ==> {
                &&& r matches Ok(g) && g.spec_kind() == kind
                &&& final(self)@ == next
            },
            acquire_spec(old(self)@, kind) is None ==> {
                &&& r matches Err(e) && e@ == busy_message()
                &&& final(self)@ == old(self)@
            },
    {
        if self.in_progress.is_some() {
            return Err("a switch operation is already in progress".to_owned());
        }
        self.cancel = false;
        self.in_progress = Some(kind);
        Ok(SwitchGuard { kind })
    }

    /// Ends the operation that `guard` was issued for, freeing the coordinator.
    pub fn release(&mut self, guard: SwitchGuard)
        requires
            old(self)@.in_progress == Some(guard.spec_kind()),
        ensures
            final(self)@ == release_spec(old(self)@),
    {
        let _ = guard;
        self.in_progress = None;
    }

    /// A manual port change arrived: if an automatic switch is running, ask it
    /// to stop and mark that priorities must be applied again.
    ///
    /// Returns whether an automatic switch was running.
    pub fn interrupt_auto(&mut self) -> (r: bool)
        ensures
            r == is_auto_running(old(self)@),
            final(self)@ == interrupt_auto_spec(old(self)@),
    {
        let is_auto = match self.in_progress {
            Some(SwitchKind::PriorityAuto) => true,
            _ => false,
        };
        if is_auto {
            self.cancel = true;
            self.reprioritize = true;
        }
        is_auto
    }

    /// The kind of the operation in progress, if any.
    pub fn in_progress(&self) -> (r: Option<SwitchKind>)
        ensures
            r == self@.in_progress,
    {
        self.in_progress
    }

    /// Whether cancellation of the running operation was requested.
    pub fn cancel_requested(&self) -> (r: bool)
        ensures
            r == self@.cancel,
    {
        self.cancel
    }

    /// Asks the running operation to stop (for example when its card goes away).
    pub fn request_cancel(&mut self)
        ensures
            final(self)@ == (SwitchState { cancel: true, ..old(self)@ }),
    {
        self.cancel = true;
    }

    /// Whether priorities must be applied again.
    pub fn reprioritize_needed(&self) -> (r: bool)
        ensures
            r == self@.reprioritize,
    {
        self.reprioritize
    }

    /// Clears the re-prioritisation mark.
    pub fn clear_reprioritize(&mut self)
        ensures
            final(self)@ == (SwitchState { reprioritize: false, ..old(self)@ }),
    {
        self.reprioritize = false;
    }
}

/// While one operation holds the coordinator, every other request is refused.
pub proof fn law_acquire_excludes(s: SwitchState, first: SwitchKind, second: SwitchKind)
    requires
        acquire_spec(s, first) is Some,
    ensures
        acquire_spec(acquire_spec(s, first)->0, second) is None,
{
}

/// Releasing the coordinator lets the next request through, whatever its kind.
pub proof fn law_release_reopens(s: SwitchState, kind: SwitchKind)
    ensures
        acquire_spec(release_spec(s), kind) is Some,
{
}

/// Only a running automatic switch is interrupted; otherwise nothing changes,
/// in particular no re-prioritisation is asked for.
pub proof fn law_interrupt_only_auto(s: SwitchState)
    ensures
        !is_auto_running(s) ==> interrupt_auto_spec(s) == s,
        is_auto_running(s) ==> interrupt_auto_spec(s).cancel && interrupt_auto_spec(s).reprioritize,
        interrupt_auto_spec(s).in_progress == s.in_progress,
{
}

/// A fresh acquire clears any earlier cancel request, so a new operation never
/// starts out cancelled.
pub proof fn law_acquire_clears_cancel(s: SwitchState, kind: SwitchKind)
    requires
        acquire_spec(s, kind) is Some,
    ensures
        !acquire_spec(s, kind)->0.cancel,
        acquire_spec(s, kind)->0.reprioritize == s.reprioritize,
{
}

} // verus!
