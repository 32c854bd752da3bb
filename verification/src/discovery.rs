//! Device discovery policy.
//!
//! The host enumerates the serial ports it can see and hands their names
//! over; the pipeline starts only when exactly one device is visible. Zero
//! and several devices are both no-start outcomes, kept distinct so the host
//! can tell "nothing attached" from "too many to pick safely".

use vstd::prelude::*;

verus! {

/// The outcome of device discovery over the enumerated port names.
#[derive(Debug)]
pub enum DiscoveryOutcome {
    /// No serial device is visible: the pipeline does not start.
    NoDevice,
    /// Several devices are visible and automatic selection would be unsafe:
    /// the pipeline does not start. Carries how many devices were seen.
    Ambiguous(usize),
    /// Exactly one device is visible: open this port and start the pipeline.
    Selected(String),
}

/// The discovery policy: start the pipeline only on exactly one visible
/// device, and report zero and several devices as two distinct no-start
/// outcomes.
pub fn select_port(names: &Vec<String>) -> (r: DiscoveryOutcome)
    ensures
        names@.len() == 0 ==> r is NoDevice,
        names@.len() == 1 ==> (r matches DiscoveryOutcome::Selected(n) && n@ == names@[0]@),
        names@.len() > 1 ==> (r matches DiscoveryOutcome::Ambiguous(k) && k == names@.len()),
{
    if names.len() == 0 {
        DiscoveryOutcome::NoDevice
    } else if names.len() == 1 {
        DiscoveryOutcome::Selected(names[0].clone())
    } else {
        DiscoveryOutcome::Ambiguous(names.len())
    }
}

} // verus!
