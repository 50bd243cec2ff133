//! External-link dispatcher: surfaces the host opener's outcome to the
//! front end as a plain success-or-message result.

use vstd::prelude::*;

verus! {

/// What the host's external-open facility reported for one open request.
/// The shell hands the URL verbatim to that facility and brings its
/// outcome back here; no validation happens on this side.
pub enum HostOpenOutcome {
    /// The system's default handler accepted the request.
    Opened,
    /// The facility failed; the field is its diagnostic text.
    Failed(String),
}

impl HostOpenOutcome {
    /// The outcome reports success.
    pub open spec fn is_opened(self) -> bool {
        self is Opened
    }
}

/// Converts the host facility's outcome into the result handed across the
/// bridge: an empty acknowledgment on success, and on failure the
/// facility's diagnostic text as an opaque message, never swallowed and
/// never raised as a fault.
pub fn surface_open_outcome(outcome: HostOpenOutcome) -> (r: Result<(), String>)
    ensures
        outcome.is_opened() <==> r is Ok,
        outcome matches HostOpenOutcome::Failed(m) ==> (r matches Err(e) && e@ == m@),
{
    match outcome {
        HostOpenOutcome::Opened => Ok(()),
        HostOpenOutcome::Failed(message) => Err(message),
    }
}

/// A failure is never silently swallowed: whenever the facility reports a
/// failure with a non-empty diagnostic, the caller receives a failure
/// carrying a non-empty message.
pub proof fn lemma_failure_surfaces(outcome: HostOpenOutcome, r: Result<(), String>)
    requires
        outcome.is_opened() <==> r is Ok,
        outcome matches HostOpenOutcome::Failed(m) ==> (r matches Err(e) && e@ == m@),
    ensures
        (outcome matches HostOpenOutcome::Failed(m) && m@.len() > 0) ==> (r matches Err(e)
            && e@.len() > 0),
{
}

} // verus!
