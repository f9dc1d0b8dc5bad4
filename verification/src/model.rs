use vstd::prelude::*;

use crate::notification::ErrorKind;
use crate::notification::InstallFault;
use crate::notification::NotificationView;
use crate::notification::precondition_text;
use crate::notification::success_text;
use crate::status::EnforcementStatus;

verus! {

/// The outcome of one external call, handed back to the orchestrator by the
/// caller that performed the call on its behalf.
#[derive(Clone, Copy, Debug, PartialEq, Eq)]
pub enum Event {
    /// A `set_enforcement` call completed, successfully or not.
    Patch { succeeded: bool },
    /// The driver install call completed with this result.
    Install { result: Result<(), InstallFault> },
}

/// Where the orchestrator stands in the one sequence it may have in flight.
/// `Disabling`, `Installing` and `Restoring` are the three steps of an
/// install sequence, in their only permitted order; `Toggling` is a manual
/// enforcement toggle.
pub enum PhaseView {
    Idle,
    Disabling { name: Seq<char>, path: Seq<char> },
    Installing,
    Restoring { install: Result<(), InstallFault> },
    Toggling { desired: bool },
}

/// An external call the orchestrator asks its caller to perform next:
/// flip signature enforcement, or register and start the named driver.
pub enum ActionView {
    SetEnforcement(bool),
    InstallDriver(Seq<char>, Seq<char>),
}

/// Mathematical image of the whole orchestrator: enforcement status, the
/// pending notification, and the phase of the sequence in flight.
pub struct OrchestratorView {
    pub status: EnforcementStatus,
    pub notification: Option<NotificationView>,
    pub phase: PhaseView,
}

/// The orchestrator's state right after startup: the enforcement flag and
/// the two diagnostic addresses as the patch session reported them, no
/// pending notification, nothing in flight.
pub open spec fn init(enabled: bool, validate_header_addr: u64, validate_data_addr: u64) -> OrchestratorView {
    OrchestratorView {
        status: EnforcementStatus { enabled, validate_header_addr, validate_data_addr },
        notification: None,
        phase: PhaseView::Idle,
    }
}

/// An install request enters. A request with an empty name or path is turned
/// away with the precondition warning and nothing else happens; a request
/// arriving while another sequence is in flight is ignored outright; a
/// well-formed request from idle starts the sequence with the disable step.
pub open spec fn step_request_install(s: OrchestratorView, name: Seq<char>, path: Seq<char>) -> (OrchestratorView, Option<ActionView>) {
    if !(s.phase is Idle) {
        (s, None)
    } else if name.len() == 0 || path.len() == 0 {
        (
            OrchestratorView {
                notification: Some(NotificationView::Warning(precondition_text())),
                ..s
            },
            None,
        )
    } else {
        (
            OrchestratorView { phase: PhaseView::Disabling { name, path }, ..s },
            Some(ActionView::SetEnforcement(false)),
        )
    }
}

/// A manual enforcement toggle enters. It is ignored while any sequence is
/// in flight; from idle it asks for the one patch call.
pub open spec fn step_request_toggle(s: OrchestratorView, desired: bool) -> (OrchestratorView, Option<ActionView>) {
    if !(s.phase is Idle) {
        (s, None)
    } else {
        (
            OrchestratorView { phase: PhaseView::Toggling { desired }, ..s },
            Some(ActionView::SetEnforcement(desired)),
        )
    }
}

/// The single outcome notification of an install sequence: determined by the
/// install step's result alone.
pub open spec fn install_outcome(install: Result<(), InstallFault>) -> NotificationView {
    match install {
        Result::Ok(_) => NotificationView::Success(success_text()),
        Result::Err(f) => NotificationView::Error(ErrorKind::Install(f)),
    }
}

/// An external call's outcome comes back. The enforcement flag changes only
/// when a patch call succeeded; the install sequence marches through its
/// three steps in order, and no outcome — not even a failed disable or a
/// failed install — skips the restore step. The sequence ends with exactly
/// one notification: the install step's outcome when enforcement was
/// restored, and the restore failure when it was not — leaving enforcement
/// disabled is the severest failure and takes priority over the install
/// result. An event that does not belong to the current phase is ignored.
pub open spec fn step_event(s: OrchestratorView, e: Event) -> (OrchestratorView, Option<ActionView>) {
    match (s.phase, e) {
        (PhaseView::Disabling { name, path }, Event::Patch { succeeded }) => {
            let status = EnforcementStatus {
                enabled: if succeeded { false } else { s.status.enabled },
                ..s.status
            };
            let notification = if succeeded {
                s.notification
            } else {
                Some(NotificationView::Error(ErrorKind::PatchDisable))
            };
            (
                OrchestratorView { status, notification, phase: PhaseView::Installing },
                Some(ActionView::InstallDriver(name, path)),
            )
        },
        (PhaseView::Installing, Event::Install { result }) => {
            (
                OrchestratorView { phase: PhaseView::Restoring { install: result }, ..s },
                Some(ActionView::SetEnforcement(true)),
            )
        },
        (PhaseView::Restoring { install }, Event::Patch { succeeded }) => {
            let status = EnforcementStatus {
                enabled: if succeeded { true } else { s.status.enabled },
                ..s.status
            };
            let notification = if succeeded {
                Some(install_outcome(install))
            } else {
                Some(NotificationView::Error(ErrorKind::PatchRestore))
            };
            (
                OrchestratorView { status, notification, phase: PhaseView::Idle },
                None,
            )
        },
        (PhaseView::Toggling { desired }, Event::Patch { succeeded }) => {
            let status = EnforcementStatus {
                enabled: if succeeded { desired } else { s.status.enabled },
                ..s.status
            };
            let notification = if succeeded {
                s.notification
            } else {
                Some(NotificationView::Error(ErrorKind::PatchToggle))
            };
            (
                OrchestratorView { status, notification, phase: PhaseView::Idle },
                None,
            )
        },
        _ => (s, None),
    }
}

/// An install request with an empty name or an empty path is turned away
/// before anything happens: no action is issued toward either external
/// service, the machine stays idle with its status untouched, and the only
/// effect is the precondition warning.
pub proof fn lemma_empty_request_makes_no_calls(s: OrchestratorView, name: Seq<char>, path: Seq<char>)
    requires
        s.phase is Idle,
        name.len() == 0 || path.len() == 0,
    ensures
        step_request_install(s, name, path).1 is None,
        step_request_install(s, name, path).0.phase is Idle,
        step_request_install(s, name, path).0.status == s.status,
        step_request_install(s, name, path).0.notification == Some(
            NotificationView::Warning(precondition_text()),
        ),
{
}

/// The core protocol guarantee: a well-formed install request started from
/// idle issues exactly the sequence disable, install, restore — whatever
/// the outcomes of the disable and install steps — and the machine is idle
/// again afterwards. In particular the restore action
/// `SetEnforcement(true)` is issued exactly once, after the install
/// attempt, on every path: no outcome skips it.
pub proof fn lemma_install_sequence(
    s0: OrchestratorView,
    name: Seq<char>,
    path: Seq<char>,
    disable_succeeded: bool,
    install_result: Result<(), InstallFault>,
    restore_succeeded: bool,
)
    requires
        s0.phase is Idle,
        name.len() > 0,
        path.len() > 0,
    ensures
        ({
            let (s1, a1) = step_request_install(s0, name, path);
            let (s2, a2) = step_event(s1, Event::Patch { succeeded: disable_succeeded });
            let (s3, a3) = step_event(s2, Event::Install { result: install_result });
            let (s4, a4) = step_event(s3, Event::Patch { succeeded: restore_succeeded });
            &&& a1 == Some(ActionView::SetEnforcement(false))
            &&& a2 == Some(ActionView::InstallDriver(name, path))
            &&& a3 == Some(ActionView::SetEnforcement(true))
            &&& a4 is None
            &&& s4.phase is Idle
        }),
{
}

/// If the install step succeeded and the restore step did too, the
/// sequence's one notification is Success and enforcement is enabled again
/// at the end. (When the restore step itself fails, the restore failure
/// takes priority: see `lemma_restore_failure_escalated`.)
pub proof fn lemma_install_success_reported(
    s0: OrchestratorView,
    name: Seq<char>,
    path: Seq<char>,
    disable_succeeded: bool,
)
    requires
        s0.phase is Idle,
        name.len() > 0,
        path.len() > 0,
    ensures
        ({
            let (s1, a1) = step_request_install(s0, name, path);
            let (s2, a2) = step_event(s1, Event::Patch { succeeded: disable_succeeded });
            let (s3, a3) = step_event(s2, Event::Install { result: Result::Ok(()) });
            let (s4, a4) = step_event(s3, Event::Patch { succeeded: true });
            &&& s4.notification == Some(NotificationView::Success(success_text()))
            &&& s4.status.enabled
        }),
{
}

/// If the install step failed and the restore step succeeded, the
/// sequence's one notification is an Error carrying that install failure,
/// and enforcement is enabled again at the end all the same — an install
/// failure never leaves enforcement disabled.
pub proof fn lemma_install_failure_reported(
    s0: OrchestratorView,
    name: Seq<char>,
    path: Seq<char>,
    disable_succeeded: bool,
    fault: InstallFault,
)
    requires
        s0.phase is Idle,
        name.len() > 0,
        path.len() > 0,
    ensures
        ({
            let (s1, a1) = step_request_install(s0, name, path);
            let (s2, a2) = step_event(s1, Event::Patch { succeeded: disable_succeeded });
            let (s3, a3) = step_event(s2, Event::Install { result: Result::Err(fault) });
            let (s4, a4) = step_event(s3, Event::Patch { succeeded: true });
            &&& s4.notification == Some(NotificationView::Error(ErrorKind::Install(fault)))
            &&& s4.status.enabled
        }),
{
}

/// A failure of the restore step is the severest outcome and is never
/// silently dropped: whatever the install step returned, the sequence then
/// ends with the distinct restore-failure error, and the enforcement flag
/// keeps the value it had — visibly disabled whenever the disable step had
/// gone through.
pub proof fn lemma_restore_failure_escalated(
    s0: OrchestratorView,
    name: Seq<char>,
    path: Seq<char>,
    disable_succeeded: bool,
    install_result: Result<(), InstallFault>,
)
    requires
        s0.phase is Idle,
        name.len() > 0,
        path.len() > 0,
    ensures
        ({
            let (s1, a1) = step_request_install(s0, name, path);
            let (s2, a2) = step_event(s1, Event::Patch { succeeded: disable_succeeded });
            let (s3, a3) = step_event(s2, Event::Install { result: install_result });
            let (s4, a4) = step_event(s3, Event::Patch { succeeded: false });
            &&& s4.notification == Some(NotificationView::Error(ErrorKind::PatchRestore))
            &&& s4.status.enabled == s3.status.enabled
            &&& disable_succeeded ==> !s4.status.enabled
        }),
{
}

/// At most one sequence is ever in flight: any install or toggle request
/// that arrives while the machine is not idle is ignored outright — no new
/// action, no state change — so two disable/restore sequences can never
/// race.
pub proof fn lemma_overlapping_request_ignored(s: OrchestratorView, name: Seq<char>, path: Seq<char>, desired: bool)
    requires
        !(s.phase is Idle),
    ensures
        step_request_install(s, name, path) == (s, None::<ActionView>),
        step_request_toggle(s, desired) == (s, None::<ActionView>),
{
}

} // verus!
