//! The execution engine boundary: a fresh diagnostic host per request, and
//! best-effort retrieval of its accumulated diagnostic events.

use vstd::prelude::*;
use vstd::string::StringExecFns;

verus! {

#[verifier::external_type_specification]
#[verifier::external_body]
pub struct ExHost(soroban_env_host::Host);

/// Relies on `soroban_env_host::Host::default` and `Host::set_diagnostic_level`:
/// a fresh execution engine configured for debug-level diagnostics. On a fresh,
/// single-threaded host, setting the level only writes host-internal state.
#[verifier::external_body]
pub(crate) fn fresh_diagnostic_host() -> soroban_env_host::Host {
    let host = soroban_env_host::Host::default();
    host.set_diagnostic_level(soroban_env_host::DiagnosticLevel::Debug).unwrap();
    host
}

/// Relies on `soroban_env_host::Host::get_events`, rendering each event as
/// text. The outcome depends on the host's state, so nothing is assumed of
/// it: callers handle every result.
#[verifier::external_body]
pub(crate) fn host_events(host: &soroban_env_host::Host) -> Result<Vec<String>, String> {
    match host.get_events() {
        Ok(evs) => Ok(evs.0.iter().map(|e| format!("{:?}", e)).collect()),
        Err(e) => Err(format!("{:?}", e)),
    }
}

/// Turns the engine's event query outcome into the events of the report:
/// the retrieved events themselves, or a single line naming the failure —
/// diagnostics are best-effort and never escalate to an error response.
pub fn events_report(r: Result<Vec<String>, String>) -> (events: Vec<String>)
    ensures
        r matches Ok(evs) ==> events@ == evs@,
        r matches Err(m) ==> events@.len() == 1 && events@[0]@ == "Failed to retrieve events: "@
            + m@,
{
    match r {
        Ok(evs) => evs,
        Err(m) => {
            let mut events: Vec<String> = Vec::new();
            events.push(String::from_str("Failed to retrieve events: ").concat(m.as_str()));
            events
        },
    }
}

} // verus!
