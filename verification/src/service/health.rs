//! The health/diagnostic endpoint's shared state: a message and a visit
//! counter, incremented on every call.
//!
//! The process wraps this state in a mutual-exclusion lock, so concurrent
//! requests take turns; each call then adds exactly one to the counter, and
//! `lemma_visit_count_accumulates` states that a run of calls loses none.

use crate::text::decimal;
use crate::text::usize_to_string;
use vstd::prelude::*;
use vstd::string::StringExecFns;

verus! {

/// The state the health handler reads and writes.
pub struct HealthState {
    pub health_check_response: String,
    pub visit_count: usize,
}

/// The body the health endpoint answers with: the configured message, a
/// space, the visit count before this call, and " times".
pub open spec fn spec_health_message(message: Seq<char>, count: nat) -> Seq<char> {
    message + " "@ + decimal(count) + " times"@
}

impl HealthState {
    /// Reports the visit count, then increments it by exactly one.
    pub fn health_check_handler(&mut self) -> (r: String)
        requires
            old(self).visit_count < usize::MAX,
        ensures
            final(self).visit_count == old(self).visit_count + 1,
            final(self).health_check_response == old(self).health_check_response,
            r@ == spec_health_message(
                old(self).health_check_response@,
                old(self).visit_count as nat,
            ),
    {
        let count_text = usize_to_string(self.visit_count);
        let mut response = self.health_check_response.clone();
        response.append(" ");
        response.append(count_text.as_str());
        response.append(" times");
        self.visit_count = self.visit_count + 1;
        response
    }
}

/// The counter after `n` further visits, each adding one.
pub open spec fn visit_count_after(start: nat, n: nat) -> nat
    decreases n,
{
    if n == 0 {
        start
    } else {
        visit_count_after(start, (n - 1) as nat) + 1
    }
}

/// A run of `n` visits, each incrementing the counter exactly once, ends with
/// the counter exactly `n` above where it started: no update is lost.
pub proof fn lemma_visit_count_accumulates(start: nat, n: nat)
    ensures
        visit_count_after(start, n) == start + n,
    decreases n,
{
    if n > 0 {
        lemma_visit_count_accumulates(start, (n - 1) as nat);
    }
}

} // verus!
