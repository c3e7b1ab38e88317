use vstd::prelude::*;
use crate::runtime::Runtime;

verus! {

/// A reference to a runtime-managed value.
///
/// A handle is borrowed from the runtime and is valid only while the
/// handle scope it was obtained in is still open; it is never freed on its
/// own. `value` is the model identifier of the referenced runtime value and
/// `scope` the identifier of the originating scope.
#[derive(Clone, Copy, Debug, PartialEq, Eq, Structural)]
pub struct Handle {
    pub value: usize,
    pub scope: usize,
}

impl Handle {
    /// Whether this handle may still be used: its originating scope must
    /// still be open. A handle whose scope has exited must be rejected by
    /// every runtime operation.
    pub fn is_valid(&self, rt: &Runtime) -> (r: bool)
        ensures
            r == rt.scope_open(self.scope),
    {
        self.scope < rt.scope_states.len() && rt.scope_states[self.scope]
    }

    /// Uses the handle: yields the referenced value while the originating
    /// scope is open, and rejects the handle — if and only if that scope's
    /// extent has ended. Since a scope identifier is never reused, a
    /// handle once rejected stays rejected.
    pub fn try_get(&self, rt: &Runtime) -> (r: Option<usize>)
        ensures
            r matches Some(v) ==> rt.scope_open(self.scope) && v == self.value,
            r is None <==> !rt.scope_open(self.scope),
    {
        if self.is_valid(rt) {
            Some(self.value)
        } else {
            None
        }
    }

    /// Uses the handle unconditionally. Reading a handle after its
    /// originating scope's active flag has been cleared is a precondition
    /// violation — a programming defect the layer fails fast and loudly
    /// on; verified callers are held to the precondition instead.
    pub fn get(&self, rt: &Runtime) -> (v: usize)
        requires
            rt.scope_open(self.scope),
        ensures
            v == self.value,
    {
        self.value
    }
}

} // verus!
