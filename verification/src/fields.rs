//! The field sequencer.
//!
//! A composite value (tuple, tuple struct, struct, or a variant payload with
//! fields) is encoded as the concatenation of its fields' encodings in
//! declared order, with no length prefix and no field identifiers: position
//! is the only identifier.  A sequencer walks that fixed, statically known
//! ordered list: it forwards exactly as many field visits as the type
//! declares, in the order they arrive, carries no bytes of its own, and
//! reports the exact remaining count at every step.  Its only state is the
//! count of fields remaining, decrementing to zero; at zero it is terminal
//! and admits no further field.

use vstd::prelude::*;

verus! {

/// Walks the fields of one composite value in declared order.
pub struct Fields {
    /// How many fields remain to be processed.
    pub remaining: usize,
}

impl Fields {
    /// Start a walk over a composite value with `count` declared fields.
    pub fn begin(count: usize) -> (r: Fields)
        ensures
            r.remaining == count,
    {
        Fields { remaining: count }
    }

    /// Ask for the next field.  Yields true, counting the field off, while
    /// any remain; once the count reaches zero the sequencer is terminal and
    /// every further ask yields false.
    pub fn next_element(&mut self) -> (r: bool)
        ensures
            r == (old(self).remaining > 0),
            old(self).remaining > 0 ==> final(self).remaining == old(self).remaining - 1,
            old(self).remaining == 0 ==> final(self).remaining == 0,
    {
        if self.remaining > 0 {
            self.remaining = self.remaining - 1;
            true
        } else {
            false
        }
    }

    /// The exact number of fields still to come; never an estimate.
    pub fn size_hint(&self) -> (r: usize)
        ensures
            r == self.remaining,
    {
        self.remaining
    }
}

} // verus!
