//! The closed set of element representations a construction builder can be
//! created for, and the total mapping from each representation to its tag.
//!
//! The capability trait is sealed behind a private supertrait, so the set of
//! representations is fixed at exactly three. This makes the mapping from
//! representation to [`QbgObject`] tag total and exhaustive at compile time:
//! no caller can construct a builder for an unsupported representation, and
//! adding a representation requires extending the sealed set here.

use vstd::prelude::*;

use crate::sealed::Sealed;
use crate::tags::QbgObject;

verus! {

/// Capability of a supported element representation.
///
/// Implemented only by the three marker types of this module; the sealed
/// supertrait rejects any implementation outside this crate.
pub trait QbgObjectType: Sealed {
    /// The tag this representation maps to.
    spec fn spec_obj() -> QbgObject;

    /// Returns the element type tag of this representation.
    fn as_obj() -> (tag: QbgObject)
        ensures
            tag == Self::spec_obj(),
    ;
}

/// Marker for components stored as unsigned 8-bit integers.
#[derive(Debug, Clone, Copy, PartialEq, Eq)]
pub struct Uint8Element;

/// Marker for components stored as 32-bit floating-point values.
#[derive(Debug, Clone, Copy, PartialEq, Eq)]
pub struct Float32Element;

/// Marker for components stored as 16-bit floating-point values.
#[derive(Debug, Clone, Copy, PartialEq, Eq)]
pub struct Float16Element;

impl Sealed for Uint8Element {

}

impl QbgObjectType for Uint8Element {
    open spec fn spec_obj() -> QbgObject {
        QbgObject::Uint8
    }

    fn as_obj() -> QbgObject {
        QbgObject::Uint8
    }
}

impl Sealed for Float32Element {

}

impl QbgObjectType for Float32Element {
    open spec fn spec_obj() -> QbgObject {
        QbgObject::Float
    }

    fn as_obj() -> QbgObject {
        QbgObject::Float
    }
}

impl Sealed for Float16Element {

}

impl QbgObjectType for Float16Element {
    open spec fn spec_obj() -> QbgObject {
        QbgObject::Float16
    }

    fn as_obj() -> QbgObject {
        QbgObject::Float16
    }
}

/// The representation-to-tag mapping is a bijection over its domain: each of
/// the three supported representations maps to exactly one tag, and no two
/// representations share a tag.
pub proof fn lemma_element_capability_bijection()
    ensures
        Uint8Element::spec_obj() == QbgObject::Uint8,
        Float32Element::spec_obj() == QbgObject::Float,
        Float16Element::spec_obj() == QbgObject::Float16,
        Uint8Element::spec_obj() != Float32Element::spec_obj(),
        Uint8Element::spec_obj() != Float16Element::spec_obj(),
        Float32Element::spec_obj() != Float16Element::spec_obj(),
{
}

} // verus!
