use vstd::prelude::*;

use crate::model::ActionView;
use crate::model::Event;
use crate::model::OrchestratorView;
use crate::model::PhaseView;
use crate::model::step_event;
use crate::model::step_request_install;
use crate::model::step_request_toggle;
use crate::model;
use crate::notification::ErrorKind;
use crate::notification::InstallFault;
use crate::notification::Notification;
use crate::notification::NotificationModel;
use crate::notification::opt_notification_view;
use crate::request::InstallRequest;
use crate::status::EnforcementStatus;

verus! {

/// An external call the orchestrator asks its caller to perform next. The
/// caller performs it — against the kernel patch session or the service
/// manager — and hands the outcome back as an [`Event`].
#[derive(Clone, Debug, PartialEq, Eq)]
pub enum Action {
    /// Set signature enforcement to the given state.
    SetEnforcement(bool),
    /// Register and start a driver under this name, from this file path.
    InstallDriver(String, String),
}

impl View for Action {
    type V = ActionView;

    open spec fn view(&self) -> ActionView {
        match self {
            Action::SetEnforcement(b) => ActionView::SetEnforcement(*b),
            Action::InstallDriver(name, path) => ActionView::InstallDriver(name@, path@),
        }
    }
}

pub open spec fn opt_action_view(a: Option<Action>) -> Option<ActionView> {
    match a {
        Option::Some(x) => Option::Some(x@),
        Option::None => Option::None,
    }
}

/// Where the orchestrator stands in the one sequence it may have in flight.
enum Phase {
    Idle,
    Disabling { name: String, path: String },
    Installing,
    Restoring { install: Result<(), InstallFault> },
    Toggling { desired: bool },
}

impl View for Phase {
    type V = PhaseView;

    closed spec fn view(&self) -> PhaseView {
        match self {
            Phase::Idle => PhaseView::Idle,
            Phase::Disabling { name, path } => PhaseView::Disabling { name: name@, path: path@ },
            Phase::Installing => PhaseView::Installing,
            Phase::Restoring { install } => PhaseView::Restoring { install: *install },
            Phase::Toggling { desired } => PhaseView::Toggling { desired: *desired },
        }
    }
}

/// Sequences "disable enforcement, install driver, restore enforcement" as
/// one operation with at most one sequence in flight, owns the enforcement
/// status and the single pending notification, and never lets any outcome
/// of the install step skip the restore step.
///
/// The orchestrator performs no I/O itself. Each request returns the first
/// [`Action`] to perform, and [`advance`](Self::advance) consumes the
/// outcome of one action and returns the next, until the sequence reports
/// its notification and the orchestrator is idle again.
pub struct InstallOrchestrator {
    status: EnforcementStatus,
    notifications: NotificationModel,
    phase: Phase,
}

impl View for InstallOrchestrator {
    type V = OrchestratorView;

    closed spec fn view(&self) -> OrchestratorView {
        OrchestratorView {
            status: self.status,
            notification: self.notifications@,
            phase: self.phase@,
        }
    }
}

impl InstallOrchestrator {
    /// Builds the orchestrator from what the patch session reported at
    /// startup: the current enforcement flag and the two validation routine
    /// addresses, captured once for diagnostic display.
    pub fn new(enabled: bool, validate_header_addr: u64, validate_data_addr: u64) -> (r: InstallOrchestrator)
        ensures
            r@ == model::init(enabled, validate_header_addr, validate_data_addr),
    {
        InstallOrchestrator {
            status: EnforcementStatus { enabled, validate_header_addr, validate_data_addr },
            notifications: NotificationModel::new(),
            phase: Phase::Idle,
        }
    }

    /// Read-only snapshot of the enforcement status.
    pub fn status(&self) -> (r: EnforcementStatus)
        ensures
            r == self@.status,
    {
        self.status
    }

    /// Whether a sequence is in flight; while it is, further requests are
    /// ignored.
    pub fn is_busy(&self) -> (r: bool)
        ensures
            r == !(self@.phase is Idle),
    {
        match self.phase {
            Phase::Idle => false,
            _ => true,
        }
    }

    /// Read-only view of the pending notification, if any.
    pub fn current_notification(&self) -> (r: &Option<Notification>)
        ensures
            opt_notification_view(*r) == self@.notification,
    {
        self.notifications.current()
    }

    /// Clears the pending notification; the user has acknowledged it.
    /// Nothing else changes, and no notification reappears until some later
    /// operation sets one.
    pub fn acknowledge_notification(&mut self)
        ensures
            final(self)@ == (OrchestratorView { notification: None, ..old(self)@ }),
    {
        self.notifications.acknowledge();
    }

    /// Takes an install request. A request with an empty name or path only
    /// produces the precondition warning; a request arriving while another
    /// sequence is in flight is ignored; otherwise the install sequence
    /// begins and the disable step is handed back to the caller.
    pub fn request_install(&mut self, request: InstallRequest) -> (r: Option<Action>)
        ensures
            ({
                let (s, a) = step_request_install(old(self)@, request.driver_name@, request.driver_path@);
                final(self)@ == s && opt_action_view(r) == a
            }),
    {
        match self.phase {
            Phase::Idle => {},
            _ => {
                return None;
            },
        }
        if request.driver_name.as_str().is_empty() || request.driver_path.as_str().is_empty() {
            self.notifications.set(
                Notification::Warning("Please fill in both the driver path and name.".to_owned()),
            );
            None
        } else {
            self.phase = Phase::Disabling { name: request.driver_name, path: request.driver_path };
            Some(Action::SetEnforcement(false))
        }
    }

    /// Takes a manual enforcement-toggle request. It is ignored while a
    /// sequence is in flight; otherwise the one patch call is handed back.
    pub fn request_toggle(&mut self, desired: bool) -> (r: Option<Action>)
        ensures
            ({
                let (s, a) = step_request_toggle(old(self)@, desired);
                final(self)@ == s && opt_action_view(r) == a
            }),
    {
        match self.phase {
            Phase::Idle => {},
            _ => {
                return None;
            },
        }
        self.phase = Phase::Toggling { desired };
        Some(Action::SetEnforcement(desired))
    }

    /// Consumes the outcome of the last action and returns the next action
    /// of the sequence, or nothing once the sequence has reported. The
    /// enforcement flag changes only on a successful patch call; after the
    /// install step's outcome the restore step is handed back whatever that
    /// outcome was; and the sequence ends with exactly one notification:
    /// Success or the install failure once enforcement was restored, and
    /// the distinct restore-failure error when it was not.
    pub fn advance(&mut self, event: Event) -> (r: Option<Action>)
        ensures
            ({
                let (s, a) = step_event(old(self)@, event);
                final(self)@ == s && opt_action_view(r) == a
            }),
    {
        let mut phase = Phase::Idle;
        core::mem::swap(&mut phase, &mut self.phase);
        match (phase, event) {
            (Phase::Disabling { name, path }, Event::Patch { succeeded }) => {
                if succeeded {
                    self.status.enabled = false;
                } else {
                    self.notifications.set(Notification::Error(ErrorKind::PatchDisable));
                }
                self.phase = Phase::Installing;
                Some(Action::InstallDriver(name, path))
            },
            (Phase::Installing, Event::Install { result }) => {
                self.phase = Phase::Restoring { install: result };
                Some(Action::SetEnforcement(true))
            },
            (Phase::Restoring { install }, Event::Patch { succeeded }) => {
                if succeeded {
                    self.status.enabled = true;
                    match install {
                        Result::Ok(_) => {
                            self.notifications.set(
                                Notification::Success("Successfully loaded driver!".to_owned()),
                            );
                        },
                        Result::Err(fault) => {
                            self.notifications.set(Notification::Error(ErrorKind::Install(fault)));
                        },
                    }
                } else {
                    self.notifications.set(Notification::Error(ErrorKind::PatchRestore));
                }
                self.phase = Phase::Idle;
                None
            },
            (Phase::Toggling { desired }, Event::Patch { succeeded }) => {
                if succeeded {
                    self.status.enabled = desired;
                } else {
                    self.notifications.set(Notification::Error(ErrorKind::PatchToggle));
                }
                self.phase = Phase::Idle;
                None
            },
            (other, _) => {
                self.phase = other;
                None
            },
        }
    }
}

} // verus!
