use vstd::prelude::*;

verus! {

/// An error sentinel used by `NeonResult` to indicate that the managed
/// runtime has entered into a throwing state.
///
/// The sentinel carries no message of its own: the exception value lives in
/// the runtime, recorded by the state model as the pending exception.
#[derive(Clone, Copy, Debug, PartialEq, Eq, Structural)]
pub struct Throw;

impl Throw {
    /// A short machine-flavored description of the sentinel.
    pub fn description(&self) -> (r: &'static str)
        ensures
            r@ == "javascript error"@,
    {
        "javascript error"
    }

    /// The sentinel's display text, for diagnostics shown to people.
    pub fn display_string(&self) -> (r: &'static str)
        ensures
            r@ == "JavaScript Error"@,
    {
        "JavaScript Error"
    }
}

/// The result of a computation that might send the runtime into a throwing
/// state.
pub type NeonResult<T> = Result<T, Throw>;

/// The result of a computation that produces a runtime value and might send
/// the runtime into a throwing state.
pub type JsResult = NeonResult<crate::handle::Handle>;

} // verus!
