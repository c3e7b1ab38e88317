use vstd::prelude::*;
use crate::runtime::Runtime;

verus! {

/// An opaque handle identifying one instantiation of the managed runtime.
///
/// It is immutable and copyable and carries no data of its own; every
/// operation against it goes through the runtime state model
/// ([`crate::runtime::Runtime`]), which stands for the foreign call
/// interface of that instantiation.
#[derive(Clone, Copy, Debug, PartialEq, Eq, Structural)]
pub struct Env {
    pub id: u64,
}

impl Env {
    /// Makes sure the per-instance class registry slot is populated: an
    /// explicit tagged-ownership cell, lazily filled exactly once per
    /// runtime instantiation and freed by a finalizer the runtime invokes
    /// at teardown. Once populated it is never replaced.
    pub fn class_map(&self, rt: &mut Runtime)
        requires
            old(rt).wf(),
            *self == old(rt).env,
        ensures
            final(rt).wf(),
            final(rt).class_map_init,
            old(rt).class_map_init ==> *final(rt) == *old(rt),
            !old(rt).class_map_init ==> *final(rt) == (Runtime {
                class_map_init: true,
                ..*old(rt)
            }),
    {
        if !rt.class_map_init {
            rt.class_map_init = true;
        }
    }
}

} // verus!
