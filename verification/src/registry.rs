//! The handler registry: for each opcode, the callbacks to run when an event
//! of that kind arrives, in the order in which they were registered.

use crate::enums::WireEnum;
use crate::events::{Event, Opcode};
use std::collections::HashMap;
use vstd::prelude::*;

verus! {

broadcast use vstd::std_specs::hash::group_hash_axioms;

/// Callbacks by opcode. `H` is the kind of callback that the owner keeps,
/// for instance a boxed closure.
pub struct Registry<H> {
    by_opcode: HashMap<u8, Vec<H>>,
}

impl<H> Registry<H> {
    /// The callbacks registered for `opcode`, oldest first; none where
    /// nothing was registered.
    pub closed spec fn handlers_of(&self, opcode: Opcode) -> Seq<H> {
        if self.by_opcode@.contains_key(opcode.spec_to_u8()) {
            self.by_opcode@[opcode.spec_to_u8()]@
        } else {
            Seq::empty()
        }
    }

    /// A registry with no callbacks.
    pub fn new() -> (r: Self)
        ensures
            forall|op: Opcode| r.handlers_of(op) == Seq::<H>::empty(),
    {
        Registry { by_opcode: HashMap::new() }
    }

    /// Adds `f` after the callbacks that `opcode` already has. The callbacks
    /// of every other opcode stay as they are.
    pub fn register(&mut self, opcode: Opcode, f: H)
        ensures
            final(self).handlers_of(opcode) == old(self).handlers_of(opcode).push(f),
            forall|op: Opcode|
                op != opcode ==> final(self).handlers_of(op) == old(self).handlers_of(op),
    {
        let key: u8 = opcode.to_u8();
        let mut list: Vec<H> = match self.by_opcode.remove(&key) {
            Some(list) => list,
            None => Vec::new(),
        };
        list.push(f);
        self.by_opcode.insert(key, list);
        proof {
            assert forall|op: Opcode| op != opcode implies final(self).handlers_of(op) == old(
                self,
            ).handlers_of(op) by {
                op.lemma_from_to();
                opcode.lemma_from_to();
            }
        }
    }

    /// How many callbacks `opcode` has.
    pub fn count(&self, opcode: Opcode) -> (n: usize)
        ensures
            n == self.handlers_of(opcode).len(),
    {
        let key: u8 = opcode.to_u8();
        match self.by_opcode.get(&key) {
            Some(list) => list.len(),
            None => 0,
        }
    }
}

impl<H: Fn(&Event)> Registry<H> {
    /// Every callback of `opcode` may be called on `evt`.
    pub open spec fn accepts(&self, evt: &Event, opcode: Opcode) -> bool {
        forall|i: int|
            0 <= i < self.handlers_of(opcode).len() ==> call_requires(
                #[trigger] self.handlers_of(opcode)[i],
                (evt,),
            )
    }

    /// Runs the callbacks of `opcode` on `evt`, oldest first, on the calling
    /// thread, each to its end before the next begins, and says how many it
    /// ran. An event whose opcode has no callbacks is dropped in silence:
    /// nothing runs and nothing is kept for later.
    pub fn dispatch(&self, evt: &Event, opcode: Opcode) -> (n: usize)
        requires
            self.accepts(evt, opcode),
        ensures
            n == self.handlers_of(opcode).len(),
            forall|i: int|
                0 <= i < self.handlers_of(opcode).len() ==> call_ensures(
                    #[trigger] self.handlers_of(opcode)[i],
                    (evt,),
                    (),
                ),
    {
        let key: u8 = opcode.to_u8();
        let list = match self.by_opcode.get(&key) {
            Some(list) => list,
            None => {
                return 0;
            },
        };
        assert(list@ == self.handlers_of(opcode));
        let mut i: usize = 0;
        while i < list.len()
            invariant
                i <= list.len(),
                list@ == self.handlers_of(opcode),
                self.accepts(evt, opcode),
                forall|j: int| 0 <= j < i ==> call_ensures(#[trigger] list@[j], (evt,), ()),
            decreases list.len() - i,
        {
            (list[i])(evt);
            i += 1;
        }
        i
    }
}

} // verus!
