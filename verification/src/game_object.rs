//! The capability every simulated entity has: a kind, a scale and a deletion flag.

use vstd::prelude::*;
use crate::geometry::Ratio;
use crate::object_type::ObjectType;

verus! {

/// Base capability of an entity.
///
/// An entity that can never be deleted keeps [`GameObject::marked`] false
/// whatever is asked of it.
pub trait GameObject {
    /// Whether the entity is to be removed at the next sweep.
    spec fn marked(&self) -> bool;

    /// The tag collision reactions dispatch on.
    spec fn kind(&self) -> ObjectType;

    /// Whether the entity may ever be marked for deletion.
    spec fn deletable(&self) -> bool;

    /// The factor by which the entity's texture and footprint are scaled.
    spec fn scale_factor(&self) -> Ratio;

    fn get_scale(&self) -> (r: Ratio)
        ensures
            r == self.scale_factor(),
    ;

    fn get_should_delete(&self) -> (r: bool)
        ensures
            r == self.marked(),
            !self.deletable() ==> !r,
    ;

    fn set_should_delete(&mut self, should_delete: bool)
        ensures
            final(self).marked() == (should_delete && old(self).deletable()),
            final(self).kind() == old(self).kind(),
            final(self).deletable() == old(self).deletable(),
            final(self).scale_factor() == old(self).scale_factor(),
    ;

    fn get_object_type(&self) -> (r: ObjectType)
        ensures
            r == self.kind(),
    ;
}

} // verus!
