use vstd::prelude::*;

verus! {

/// A user-supplied request to install a kernel driver: the service name to
/// register it under and the path of the driver file. A request is transient
/// input; the orchestrator holds it only for the duration of one install
/// sequence.
pub struct InstallRequest {
    pub driver_name: String,
    pub driver_path: String,
}

impl InstallRequest {
    /// A request may be acted on only when both fields are non-empty.
    pub open spec fn well_formed(self) -> bool {
        self.driver_name@.len() > 0 && self.driver_path@.len() > 0
    }

    pub fn new(driver_name: String, driver_path: String) -> (r: InstallRequest)
        ensures
            r.driver_name == driver_name,
            r.driver_path == driver_path,
    {
        InstallRequest { driver_name, driver_path }
    }

    pub fn is_well_formed(&self) -> (r: bool)
        ensures
            r == self.well_formed(),
    {
        !self.driver_name.as_str().is_empty() && !self.driver_path.as_str().is_empty()
    }
}

} // verus!
