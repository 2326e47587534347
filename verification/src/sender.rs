use vstd::prelude::*;

verus! {

/// Somewhere values can be handed to, such as the loop that owns the
/// database and creates tables when asked. Implemented by the library's
/// users; the library states nothing of what an implementation does.
pub trait Sender<TValue>: Send + Sync {
    /// Hands `value` on.
    fn send(&self, value: TValue);
}

} // verus!
