use vstd::prelude::*;

verus! {

/// The notification service's answer.
#[derive(Debug, Clone, Copy, PartialEq, Eq, Structural)]
pub struct NotifyResponse {
    pub success: bool,
}

impl NotifyResponse {
    /// `Ok` when the service reports success, an error description otherwise.
    pub fn into_result(self) -> (r: Result<(), String>)
        ensures
            self.success ==> r is Ok,
            !self.success ==> (r matches Err(m) && m@ == "Failed to notify homebridge"@),
    {
        if self.success {
            Ok(())
        } else {
            Err("Failed to notify homebridge".to_owned())
        }
    }
}

} // verus!
