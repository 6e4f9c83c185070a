//! The host-path capability: reading and rewriting every host-filesystem
//! path embedded in a value.

use vstd::prelude::*;

verus! {

/// Trait for types which contain paths on the host.
///
/// An external collaborator canonicalizes or validates the paths after the
/// model is built: it reads them with [`HostPaths::host_paths`] and writes
/// the reworked paths back, in the same order, with
/// [`HostPaths::set_host_paths`].
pub trait HostPaths: View + Sized {
    /// All host paths in the value's abstract state, in the order
    /// [`HostPaths::host_paths`] yields them.
    spec fn spec_host_paths(v: Self::V) -> Seq<Seq<char>>;

    /// The abstract state with its host paths replaced, in the same order.
    spec fn spec_with_host_paths(v: Self::V, paths: Seq<Seq<char>>) -> Self::V;

    /// All paths on the host that the value holds, in a fixed order.
    fn host_paths(&self) -> (r: Vec<String>)
        ensures
            r.deep_view() == Self::spec_host_paths(self@),
    ;

    /// Replaces the value's host paths with `paths`, which must hold one
    /// entry per path yielded by [`HostPaths::host_paths`], in that order.
    fn set_host_paths(&mut self, paths: Vec<String>)
        requires
            paths.deep_view().len() == Self::spec_host_paths(old(self)@).len(),
        ensures
            final(self)@ == Self::spec_with_host_paths(old(self)@, paths.deep_view()),
            Self::spec_host_paths(final(self)@) == paths.deep_view(),
    ;
}

} // verus!
