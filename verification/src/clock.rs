//! The clock that a processor reports its cycles to.

use vstd::prelude::*;

verus! {

/// A clock that is told how long each instruction took.
///
/// What the clock does with a report is its own business: it may wait, sleep or count. Its
/// model is the list of reports that it has received, which an implementation keeps in ghost
/// state.
pub trait Clock {
    /// The cycle counts reported so far, oldest first.
    spec fn reports(&self) -> Seq<u8>;

    /// Reports that `n` cycles have passed.
    fn cycles(&mut self, n: u8)
        ensures
            final(self).reports() == old(self).reports().push(n),
    ;
}

/// The sum of a list of cycle counts.
pub open spec fn total(reports: Seq<u8>) -> nat
    decreases reports.len(),
{
    if reports.len() == 0 {
        0
    } else {
        total(reports.drop_last()) + reports.last() as nat
    }
}

/// A clock that adds up the cycles it is told of.
pub struct CycleCounter {
    passed: u64,
    reported: Ghost<Seq<u8>>,
}

impl CycleCounter {
    #[verifier::type_invariant]
    spec fn consistent(&self) -> bool {
        self.passed as nat == total(self.reported@) % 0x1_0000_0000_0000_0000
    }

    /// A clock that has been told of nothing yet.
    pub fn new() -> (clock: CycleCounter)
        ensures
            clock.reports() == Seq::<u8>::empty(),
    {
        CycleCounter { passed: 0, reported: Ghost(Seq::empty()) }
    }

    /// The cycles passed: the sum of all reports, wrapping at 2^64.
    pub fn cpassed(&self) -> (passed: u64)
        ensures
            passed as nat == total(self.reports()) % 0x1_0000_0000_0000_0000,
    {
        proof {
            use_type_invariant(self);
        }
        self.passed
    }
}

impl Clock for CycleCounter {
    closed spec fn reports(&self) -> Seq<u8> {
        self.reported@
    }

    fn cycles(&mut self, n: u8) {
        proof {
            use_type_invariant(&*self);
            assert(self.reported@.push(n).drop_last() =~= self.reported@);
        }
        *self = CycleCounter {
            passed: self.passed.wrapping_add(n as u64),
            reported: Ghost(self.reported@.push(n)),
        };
    }
}

} // verus!
