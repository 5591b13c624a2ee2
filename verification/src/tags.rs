//! The enumerated tags shared by both parameter records, each with its fixed
//! integer encoding.
//!
//! The engine's native interface speaks integer codes; this module fixes the
//! encoding of every tag and proves that it round-trips: each tag's code
//! decodes back to the same tag, and any code outside the defined range is
//! rejected with an unrecognized-code error instead of silently aliasing a
//! variant.

use vstd::prelude::*;

use crate::error::Error;

verus! {

/// Element type tag: how vector components are stored by the engine.
#[derive(Debug, Clone, Copy, PartialEq, Eq)]
pub enum QbgObject {
    /// Unsigned 8-bit integer components.
    Uint8,
    /// 32-bit floating-point components.
    Float,
    /// 16-bit floating-point components.
    Float16,
}

impl QbgObject {
    /// The fixed integer encoding of this tag.
    pub open spec fn spec_code(self) -> i32 {
        match self {
            QbgObject::Uint8 => 0,
            QbgObject::Float => 1,
            QbgObject::Float16 => 2,
        }
    }

    /// The tag an integer code decodes to, if any.
    pub open spec fn spec_from_code(code: i32) -> Option<QbgObject> {
        if code == 0 {
            Some(QbgObject::Uint8)
        } else if code == 1 {
            Some(QbgObject::Float)
        } else if code == 2 {
            Some(QbgObject::Float16)
        } else {
            None
        }
    }

    /// The integer code handed to the engine.
    pub fn code(self) -> (code: i32)
        ensures
            code == self.spec_code(),
    {
        match self {
            QbgObject::Uint8 => 0,
            QbgObject::Float => 1,
            QbgObject::Float16 => 2,
        }
    }

    /// Decodes an engine-side integer code; any code outside the defined
    /// range fails with an unrecognized-code error.
    pub fn try_from_code(code: i32) -> (decoded: Result<QbgObject, Error>)
        ensures
            decoded is Ok <==> QbgObject::spec_from_code(code) is Some,
            decoded matches Ok(tag) ==> QbgObject::spec_from_code(code) == Some(tag),
            decoded matches Err(e) ==> e == (Error::UnrecognizedCode { code }),
    {
        if code == 0 {
            Ok(QbgObject::Uint8)
        } else if code == 1 {
            Ok(QbgObject::Float)
        } else if code == 2 {
            Ok(QbgObject::Float16)
        } else {
            Err(Error::UnrecognizedCode { code })
        }
    }
}

/// The element type tag encoding round-trips: every tag's code decodes back
/// to the same tag, and every code that decodes at all is the code of the tag
/// it decodes to.
pub proof fn lemma_object_code_roundtrip(tag: QbgObject, code: i32)
    ensures
        QbgObject::spec_from_code(tag.spec_code()) == Some(tag),
        QbgObject::spec_from_code(code) matches Some(decoded) ==> decoded.spec_code() == code,
{
}

/// Distance kind: the metric used by the index. Exactly one variant is
/// currently defined, but the type allows future extension without breaking
/// the record layout.
#[derive(Debug, Clone, Copy, PartialEq, Eq)]
pub enum QbgDistance {
    /// Euclidean (L2) distance.
    L2,
}

impl QbgDistance {
    /// The fixed integer encoding of this kind.
    pub open spec fn spec_code(self) -> i32 {
        match self {
            QbgDistance::L2 => 1,
        }
    }

    /// The kind an integer code decodes to, if any.
    pub open spec fn spec_from_code(code: i32) -> Option<QbgDistance> {
        if code == 1 {
            Some(QbgDistance::L2)
        } else {
            None
        }
    }

    /// The integer code handed to the engine.
    pub fn code(self) -> (code: i32)
        ensures
            code == self.spec_code(),
    {
        match self {
            QbgDistance::L2 => 1,
        }
    }

    /// Decodes an engine-side integer code; any code outside the defined
    /// range fails with an unrecognized-code error.
    pub fn try_from_code(code: i32) -> (decoded: Result<QbgDistance, Error>)
        ensures
            decoded is Ok <==> QbgDistance::spec_from_code(code) is Some,
            decoded matches Ok(kind) ==> QbgDistance::spec_from_code(code) == Some(kind),
            decoded matches Err(e) ==> e == (Error::UnrecognizedCode { code }),
    {
        if code == 1 {
            Ok(QbgDistance::L2)
        } else {
            Err(Error::UnrecognizedCode { code })
        }
    }
}

/// The distance kind encoding round-trips in the same way.
pub proof fn lemma_distance_code_roundtrip(kind: QbgDistance, code: i32)
    ensures
        QbgDistance::spec_from_code(kind.spec_code()) == Some(kind),
        QbgDistance::spec_from_code(code) matches Some(decoded) ==> decoded.spec_code() == code,
{
}

/// Clustering init mode: the initialization strategy for k-means-style
/// clustering. The hierarchical-clustering phase and the optimization phase
/// each select a mode independently.
#[derive(Debug, Clone, Copy, PartialEq, Eq)]
pub enum QbgClusteringInitMode {
    /// Deterministic head-based initialization.
    Head,
    /// Random initialization.
    Random,
    /// k-means++ initialization.
    KmeansPlusPlus,
    /// Random initialization with a fixed seed.
    RandomFixedSeed,
    /// k-means++ initialization with a fixed seed.
    KmeansPlusPlusFixedSeed,
    /// Engine-chosen best strategy.
    Best,
}

impl QbgClusteringInitMode {
    /// The fixed integer encoding of this mode.
    pub open spec fn spec_code(self) -> i32 {
        match self {
            QbgClusteringInitMode::Head => 0,
            QbgClusteringInitMode::Random => 1,
            QbgClusteringInitMode::KmeansPlusPlus => 2,
            QbgClusteringInitMode::RandomFixedSeed => 3,
            QbgClusteringInitMode::KmeansPlusPlusFixedSeed => 4,
            QbgClusteringInitMode::Best => 5,
        }
    }

    /// The mode an integer code decodes to, if any.
    pub open spec fn spec_from_code(code: i32) -> Option<QbgClusteringInitMode> {
        if code == 0 {
            Some(QbgClusteringInitMode::Head)
        } else if code == 1 {
            Some(QbgClusteringInitMode::Random)
        } else if code == 2 {
            Some(QbgClusteringInitMode::KmeansPlusPlus)
        } else if code == 3 {
            Some(QbgClusteringInitMode::RandomFixedSeed)
        } else if code == 4 {
            Some(QbgClusteringInitMode::KmeansPlusPlusFixedSeed)
        } else if code == 5 {
            Some(QbgClusteringInitMode::Best)
        } else {
            None
        }
    }

    /// The integer code handed to the engine.
    pub fn code(self) -> (code: i32)
        ensures
            code == self.spec_code(),
    {
        match self {
            QbgClusteringInitMode::Head => 0,
            QbgClusteringInitMode::Random => 1,
            QbgClusteringInitMode::KmeansPlusPlus => 2,
            QbgClusteringInitMode::RandomFixedSeed => 3,
            QbgClusteringInitMode::KmeansPlusPlusFixedSeed => 4,
            QbgClusteringInitMode::Best => 5,
        }
    }

    /// Decodes an engine-side integer code; any code outside the defined
    /// range fails with an unrecognized-code error.
    pub fn try_from_code(code: i32) -> (decoded: Result<QbgClusteringInitMode, Error>)
        ensures
            decoded is Ok <==> QbgClusteringInitMode::spec_from_code(code) is Some,
            decoded matches Ok(mode) ==> QbgClusteringInitMode::spec_from_code(code) == Some(mode),
            decoded matches Err(e) ==> e == (Error::UnrecognizedCode { code }),
    {
        if code == 0 {
            Ok(QbgClusteringInitMode::Head)
        } else if code == 1 {
            Ok(QbgClusteringInitMode::Random)
        } else if code == 2 {
            Ok(QbgClusteringInitMode::KmeansPlusPlus)
        } else if code == 3 {
            Ok(QbgClusteringInitMode::RandomFixedSeed)
        } else if code == 4 {
            Ok(QbgClusteringInitMode::KmeansPlusPlusFixedSeed)
        } else if code == 5 {
            Ok(QbgClusteringInitMode::Best)
        } else {
            Err(Error::UnrecognizedCode { code })
        }
    }
}

/// The clustering init mode encoding round-trips in the same way.
pub proof fn lemma_init_mode_code_roundtrip(mode: QbgClusteringInitMode, code: i32)
    ensures
        QbgClusteringInitMode::spec_from_code(mode.spec_code()) == Some(mode),
        QbgClusteringInitMode::spec_from_code(code) matches Some(decoded) ==> decoded.spec_code()
            == code,
{
}

} // verus!
