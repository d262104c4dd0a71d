//! The dispatcher's decision: which payload to broadcast next. The hub's
//! producer walks a fixed rotation of payloads forever; loading the
//! payloads and pacing the loop belong to the caller.

use vstd::prelude::*;

verus! {

/// A fixed rotation of payloads, handed out one at a time, round-robin.
pub struct Dispatcher {
    payloads: Vec<String>,
    next: usize,
}

impl Dispatcher {
    /// The payloads this dispatcher rotates through, in order.
    pub closed spec fn payloads_spec(self) -> Seq<String> {
        self.payloads@
    }

    /// The position the next payload comes from.
    pub closed spec fn cursor(self) -> nat {
        self.next as nat
    }

    /// Well-formedness: the cursor stays inside the rotation (or at zero
    /// when there is nothing to rotate through).
    pub open spec fn wf(self) -> bool {
        if self.payloads_spec().len() == 0 {
            self.cursor() == 0
        } else {
            self.cursor() < self.payloads_spec().len()
        }
    }

    /// A dispatcher that starts its rotation at the first payload.
    pub fn new(payloads: Vec<String>) -> (d: Dispatcher)
        ensures
            d.wf(),
            d.payloads_spec() == payloads@,
            d.cursor() == 0,
    {
        Dispatcher { payloads, next: 0 }
    }

    /// The next payload of the rotation, and the step to the one after it;
    /// `None` exactly when the rotation is empty.
    pub fn next_payload(&mut self) -> (r: Option<String>)
        requires
            old(self).wf(),
        ensures
            final(self).wf(),
            final(self).payloads_spec() == old(self).payloads_spec(),
            old(self).payloads_spec().len() == 0 ==> r is None && final(self).cursor() == 0,
            old(self).payloads_spec().len() > 0 ==> {
                &&& r == Some(old(self).payloads_spec()[old(self).cursor() as int])
                &&& final(self).cursor() == if old(self).cursor() + 1 == old(
                    self,
                ).payloads_spec().len() {
                    0nat
                } else {
                    old(self).cursor() + 1
                }
            },
    {
        if self.payloads.len() == 0 {
            return None;
        }
        let payload = self.payloads[self.next].clone();
        self.next = if self.next + 1 == self.payloads.len() {
            0
        } else {
            self.next + 1
        };
        Some(payload)
    }
}

} // verus!
