//! The parameter accumulator: the ordered record of the values bound so far
//! in the current render, together with a counter that equals its length at
//! every observation point.

use vstd::prelude::*;

verus! {

/// The views of a sequence of strings, in order.
pub open spec fn string_views(vs: Seq<String>) -> Seq<Seq<char>> {
    vs.map_values(|s: String| s@)
}

/// Ordered record of bound values plus a monotonically increasing counter.
///
/// Well-formedness (`wf`) states the accumulator's invariant: the counter
/// equals the number of values recorded. Every constructor and every
/// mutating method establishes it, so the counter always counts exactly one
/// unit per appended value since the last reset. The derived `Default` is
/// the empty accumulator, as `new` is.
#[derive(Default)]
pub struct Accumulator {
    pub values: Vec<String>,
    pub counter: usize,
}

impl View for Accumulator {
    type V = Seq<String>;

    open spec fn view(&self) -> Seq<String> {
        self.values@
    }
}

impl Accumulator {
    /// The counter equals the length of the recorded sequence.
    pub open spec fn wf(&self) -> bool {
        self.counter == self.values@.len()
    }

    /// A fresh, empty accumulator.
    pub fn new() -> (acc: Accumulator)
        ensures
            acc.wf(),
            acc@ == Seq::<String>::empty(),
            acc.counter == 0,
    {
        let acc = Accumulator { values: Vec::new(), counter: 0 };
        proof {
            assert(acc@ =~= Seq::<String>::empty());
        }
        acc
    }

    /// Appends `value` and returns the 1-based position it now occupies.
    pub fn append(&mut self, value: String) -> (index: usize)
        ensures
            final(self).wf(),
            final(self)@ == old(self)@.push(value),
            index == old(self)@.len() + 1,
    {
        self.values.push(value);
        self.counter = self.values.len();
        self.counter
    }

    /// Returns the full recorded sequence, in append order, without
    /// disturbing it.
    pub fn drain(&self) -> (values: Vec<String>)
        ensures
            values@ == self@,
    {
        let mut out: Vec<String> = Vec::new();
        let mut i: usize = 0;
        proof {
            assert(out@ =~= self.values@.subrange(0, 0));
        }
        while i < self.values.len()
            invariant
                i <= self.values@.len(),
                out@ == self.values@.subrange(0, i as int),
            decreases self.values@.len() - i,
        {
            out.push(self.values[i].clone());
            proof {
                assert(out@ =~= self.values@.subrange(0, i as int + 1));
            }
            i = i + 1;
        }
        proof {
            assert(self.values@.subrange(0, self.values@.len() as int) =~= self.values@);
        }
        out
    }

    /// Clears the sequence and sets the counter back to zero, making the
    /// accumulator ready for the next render.
    pub fn reset(&mut self)
        ensures
            final(self).wf(),
            final(self)@ == Seq::<String>::empty(),
            final(self).counter == 0,
    {
        self.values.clear();
        self.counter = 0;
        proof {
            assert(self@ =~= Seq::<String>::empty());
        }
    }

    /// The number of values recorded so far.
    pub fn len(&self) -> (n: usize)
        ensures
            n == self@.len(),
    {
        self.values.len()
    }
}

} // verus!
