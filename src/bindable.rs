use vstd::prelude::*;
use crate::gl_state::GlCall;

verus! {

/// A GPU object that is made current before it is used and released back to
/// the neutral binding afterwards. `bind` and `unbind` return the driver calls
/// that do so, for the owner of the context to perform.
pub trait Bindable {
    /// The calls that make this object current.
    spec fn bind_calls(&self) -> Seq<GlCall>;

    /// The calls that reset this object's binding points to the neutral handle.
    spec fn unbind_calls(&self) -> Seq<GlCall>;

    fn bind(&self) -> (r: Vec<GlCall>)
        ensures
            r@ == self.bind_calls(),
    ;

    fn unbind(&self) -> (r: Vec<GlCall>)
        ensures
            r@ == self.unbind_calls(),
    ;
}

} // verus!
