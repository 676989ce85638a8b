//! The stability gate: the heuristic that waits for a file's size to stop
//! changing before the file is touched.
//!
//! Each polling round feeds one size observation in — `Some(len)` when
//! the file's length could be read, `None` when the read failed and the
//! round learned nothing. It declares the file stable as soon as two
//! consecutive reads agree, and gives up (letting the file pass anyway, a
//! best-effort timeout) once the attempt budget is exhausted. The caller
//! performs the reads and the sleeps between rounds.

use vstd::prelude::*;

verus! {

/// The verdict after one observation.
#[derive(PartialEq, Eq, Structural, Clone, Copy, Debug)]
pub enum GateDecision {
    /// Two consecutive reads agreed: the file counts as stable.
    Stable,
    /// Nothing decided yet: poll once more after the delay.
    Again,
    /// The attempt budget is exhausted without agreement: stop polling and
    /// let the file pass regardless.
    Exhausted,
}

/// State between polls: the remaining attempt budget and the last
/// size that was successfully read, if any. A failed read leaves `prev`
/// unchanged: it only spends an attempt.
pub struct StabilityGate {
    pub attempts_left: usize,
    pub prev: Option<u64>,
}

impl StabilityGate {
    /// One observation round: what the next state and the decision are.
    pub open spec fn observe_spec(self, size: Option<u64>) -> (StabilityGate, GateDecision) {
        if self.attempts_left == 0 {
            (self, GateDecision::Exhausted)
        } else {
            let rest = (self.attempts_left - 1) as usize;
            match size {
                Some(len) => if self.prev == Some(len) {
                    (StabilityGate { attempts_left: rest, prev: self.prev }, GateDecision::Stable)
                } else {
                    (
                        StabilityGate { attempts_left: rest, prev: Some(len) },
                        if rest == 0 {
                            GateDecision::Exhausted
                        } else {
                            GateDecision::Again
                        },
                    )
                },
                None => (
                    StabilityGate { attempts_left: rest, prev: self.prev },
                    if rest == 0 {
                        GateDecision::Exhausted
                    } else {
                        GateDecision::Again
                    },
                ),
            }
        }
    }

    /// A fresh gate with the given attempt budget and nothing read yet.
    pub fn new(attempts: usize) -> (g: Self)
        ensures
            g == (StabilityGate { attempts_left: attempts, prev: None::<u64> }),
    {
        StabilityGate { attempts_left: attempts, prev: None }
    }

    /// Feeds in one size observation.
    pub fn observe(&mut self, size: Option<u64>) -> (d: GateDecision)
        ensures
            (*final(self), d) == old(self).observe_spec(size),
    {
        if self.attempts_left == 0 {
            return GateDecision::Exhausted;
        }
        self.attempts_left = self.attempts_left - 1;
        let agreed = match (self.prev, size) {
            (Some(p), Some(len)) => p == len,
            _ => false,
        };
        if agreed {
            GateDecision::Stable
        } else {
            if let Some(len) = size {
                self.prev = Some(len);
            }
            if self.attempts_left == 0 {
                GateDecision::Exhausted
            } else {
                GateDecision::Again
            }
        }
    }
}

/// Two successful reads of the same size in a row mean stability: when a
/// round reads `len` without deciding, and the next round reads `len` again,
/// that next round declares the file stable.
pub proof fn lemma_gate_accepts_steady_size(g: StabilityGate, len: u64)
    requires
        g.attempts_left >= 2,
    ensures
        ({
            let (g1, d1) = g.observe_spec(Some(len));
            let (g2, d2) = g1.observe_spec(Some(len));
            d1 == GateDecision::Stable || d2 == GateDecision::Stable
        }),
{
}

/// Polling never outlives its budget: each undecided round leaves a
/// strictly smaller budget, and a round that starts with nothing left says
/// so at once.
pub proof fn lemma_gate_budget_decreases(g: StabilityGate, size: Option<u64>)
    ensures
        ({
            let (g1, d) = g.observe_spec(size);
            g.attempts_left == 0 ==> d == GateDecision::Exhausted
        }),
        ({
            let (g1, d) = g.observe_spec(size);
            g.attempts_left > 0 ==> g1.attempts_left == g.attempts_left - 1
        }),
{
}

} // verus!
