use vstd::prelude::*;

verus! {

/// How a driver installation attempt failed, as reported by the service
/// registration step: the driver file could not be used, the service name is
/// already taken, the caller lacked the needed privilege, or the service
/// could not be started.
#[derive(Clone, Copy, Debug, PartialEq, Eq, Structural)]
pub enum InstallFault {
    InvalidPath,
    NameCollision,
    AccessDenied,
    ServiceFailure,
}

/// The failure kinds an operation can report. Patch failures are
/// distinguished by the step they occurred in: disabling enforcement before
/// an install, restoring it afterwards, or a manual toggle.
#[derive(Clone, Copy, Debug, PartialEq, Eq, Structural)]
pub enum ErrorKind {
    PatchDisable,
    PatchRestore,
    PatchToggle,
    Install(InstallFault),
}

/// A user-facing outcome message. At most one is live at a time; a new one
/// overwrites an unacknowledged one.
#[derive(Clone, Debug, PartialEq, Eq)]
pub enum Notification {
    Success(String),
    Warning(String),
    Error(ErrorKind),
}

/// Mathematical image of a `Notification`: message text as a character
/// sequence.
pub enum NotificationView {
    Success(Seq<char>),
    Warning(Seq<char>),
    Error(ErrorKind),
}

impl View for Notification {
    type V = NotificationView;

    open spec fn view(&self) -> NotificationView {
        match self {
            Notification::Success(m) => NotificationView::Success(m@),
            Notification::Warning(m) => NotificationView::Warning(m@),
            Notification::Error(k) => NotificationView::Error(*k),
        }
    }
}

pub open spec fn opt_notification_view(n: Option<Notification>) -> Option<NotificationView> {
    match n {
        Option::Some(x) => Option::Some(x@),
        Option::None => Option::None,
    }
}

/// The message attached to the notification reported after a successful
/// driver installation.
pub open spec fn success_text() -> Seq<char> {
    "Successfully loaded driver!"@
}

/// The message attached to the warning reported for an install request with
/// an empty name or path.
pub open spec fn precondition_text() -> Seq<char> {
    "Please fill in both the driver path and name."@
}

/// Holds the at-most-one pending notification: overwrite on new,
/// clear on acknowledge.
pub struct NotificationModel {
    pending: Option<Notification>,
}

impl View for NotificationModel {
    type V = Option<NotificationView>;

    closed spec fn view(&self) -> Option<NotificationView> {
        opt_notification_view(self.pending)
    }
}

impl NotificationModel {
    /// Starts with nothing pending.
    pub fn new() -> (r: NotificationModel)
        ensures
            r@ is None,
    {
        NotificationModel { pending: None }
    }

    /// Replaces whatever was pending, acknowledged or not: last write wins,
    /// nothing is queued.
    pub fn set(&mut self, n: Notification)
        ensures
            final(self)@ == Some(n@),
    {
        self.pending = Some(n);
    }

    /// Clears the pending notification; the user has seen it.
    pub fn acknowledge(&mut self)
        ensures
            final(self)@ is None,
    {
        self.pending = None;
    }

    /// Read-only view of the pending notification.
    pub fn current(&self) -> (r: &Option<Notification>)
        ensures
            opt_notification_view(*r) == self@,
    {
        &self.pending
    }
}

} // verus!
