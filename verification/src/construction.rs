//! The construction parameter builder: derives the memory-layout parameters
//! of the index from a requested vector dimension and element representation.
//!
//! The one cross-field invariant of the record — the padded stored length is
//! a multiple of 16 and at least the declared dimension — is established at
//! creation and enforced eagerly on every override, so the finalized record
//! is valid by construction and finalization never re-validates.

use core::marker::PhantomData;
use vstd::arithmetic::div_mod::{
    lemma_fundamental_div_mod, lemma_mod_division_less_than_divisor, lemma_mod_multiples_basic,
};
use vstd::prelude::*;

use crate::element::QbgObjectType;
use crate::error::Error;
use crate::tags::{QbgDistance, QbgObject};

verus! {

/// The smallest multiple of 16 that is at least `x`, by integer division.
pub open spec fn round_up_to_16(x: int) -> int {
    ((x + 15) / 16) * 16
}

/// `round_up_to_16(x)` is a multiple of 16 no smaller than `x`, and less
/// than 16 above it.
pub proof fn lemma_round_up_to_16_bounds(x: int)
    requires
        0 <= x,
    ensures
        round_up_to_16(x) % 16 == 0,
        x <= round_up_to_16(x),
        round_up_to_16(x) < x + 16,
{
    lemma_fundamental_div_mod(x + 15, 16);
    lemma_mod_division_less_than_divisor(x + 15, 16);
    lemma_mod_multiples_basic((x + 15) / 16, 16);
}

/// `round_up_to_16(x)` is the least multiple of 16 at or above `x`: any
/// multiple of 16 that is at least `x` is at least `round_up_to_16(x)`.
pub proof fn lemma_round_up_to_16_least(x: int, m: int)
    requires
        0 <= x,
        m % 16 == 0,
        x <= m,
    ensures
        round_up_to_16(x) <= m,
{
    lemma_round_up_to_16_bounds(x);
    lemma_fundamental_div_mod(m, 16);
    lemma_fundamental_div_mod(x + 15, 16);
    let q = (x + 15) / 16;
    let k = m / 16;
    if k < q {
        assert(m == 16 * k);
        assert(16 * k <= 16 * (q - 1)) by (nonlinear_arith)
            requires
                k <= q - 1,
        ;
        assert(16 * (q - 1) == 16 * q - 16);
        lemma_mod_division_less_than_divisor(x + 15, 16);
        assert(16 * q <= x + 15);
        assert(m <= x - 1);
    }
}

/// Returns the smallest multiple of 16 that is at least `x`.
pub fn next_multiple_of_16(x: usize) -> (rounded: usize)
    requires
        x + 15 <= usize::MAX,
    ensures
        rounded == round_up_to_16(x as int),
{
    proof {
        lemma_round_up_to_16_bounds(x as int);
    }
    ((x + 15) / 16) * 16
}

/// The state of a construction builder, as plain values.
pub struct ConstructParamsView {
    pub extended_dimension: usize,
    pub dimension: usize,
    pub number_of_subvectors: usize,
    pub number_of_blobs: usize,
    pub internal_data_type: QbgObject,
    pub data_type: QbgObject,
    pub distance_type: QbgDistance,
}

impl ConstructParamsView {
    /// The cross-field invariant of the record: the padded stored length is
    /// a multiple of 16 and at least the declared dimension. A record that
    /// violates it would under-size the engine's padded buffers.
    pub open spec fn wf(self) -> bool {
        self.extended_dimension % 16 == 0 && self.extended_dimension >= self.dimension
    }
}

/// The fixed-layout construction record consumed by the engine's
/// construction entry point.
///
/// Field order and integer widths must match the engine's native declaration
/// exactly; each enumerated tag is stored as its integer code.
#[derive(Debug, Clone, Copy, PartialEq, Eq)]
pub struct RawConstructionParams {
    pub extended_dimension: usize,
    pub dimension: usize,
    pub number_of_subvectors: usize,
    pub number_of_blobs: usize,
    pub internal_data_type: i32,
    pub data_type: i32,
    pub distance_type: i32,
}

/// Builder for the construction parameters of an index over vectors whose
/// components have the element representation `T`.
#[derive(Debug, PartialEq)]
pub struct QbgConstructParams<T> {
    extended_dimension: usize,
    dimension: usize,
    number_of_subvectors: usize,
    number_of_blobs: usize,
    internal_data_type: QbgObject,
    data_type: QbgObject,
    distance_type: QbgDistance,
    _marker: PhantomData<T>,
}

impl<T> View for QbgConstructParams<T> {
    type V = ConstructParamsView;

    closed spec fn view(&self) -> ConstructParamsView {
        ConstructParamsView {
            extended_dimension: self.extended_dimension,
            dimension: self.dimension,
            number_of_subvectors: self.number_of_subvectors,
            number_of_blobs: self.number_of_blobs,
            internal_data_type: self.internal_data_type,
            data_type: self.data_type,
            distance_type: self.distance_type,
        }
    }
}

impl<T> Clone for QbgConstructParams<T> {
    /// Clones the builder; the copy carries exactly the same field values.
    fn clone(&self) -> (cloned: Self)
        ensures
            cloned@ == self@,
    {
        QbgConstructParams {
            extended_dimension: self.extended_dimension,
            dimension: self.dimension,
            number_of_subvectors: self.number_of_subvectors,
            number_of_blobs: self.number_of_blobs,
            internal_data_type: self.internal_data_type,
            data_type: self.data_type,
            distance_type: self.distance_type,
            _marker: PhantomData,
        }
    }
}

impl<T> QbgConstructParams<T> where T: QbgObjectType {
    /// Creates a builder for vectors of `dimension` components.
    ///
    /// Derives `extended_dimension` as the smallest multiple of 16 that is
    /// at least `dimension`, fixes both element tags from the representation
    /// `T`, and sets every other field to its default.
    pub fn dimension(dimension: usize) -> (params: Self)
        requires
            1 <= dimension,
            dimension + 15 <= usize::MAX,
        ensures
            params@.extended_dimension == round_up_to_16(dimension as int),
            params@.dimension == dimension,
            params@.number_of_subvectors == 1,
            params@.number_of_blobs == 0,
            params@.internal_data_type == T::spec_obj(),
            params@.data_type == T::spec_obj(),
            params@.distance_type == QbgDistance::L2,
            params@.wf(),
    {
        proof {
            lemma_round_up_to_16_bounds(dimension as int);
        }
        let extended_dimension: usize = next_multiple_of_16(dimension);
        let number_of_subvectors: usize = 1;
        let number_of_blobs: usize = 0;
        let internal_data_type = T::as_obj();
        let data_type = T::as_obj();
        let distance_type = QbgDistance::L2;

        QbgConstructParams {
            extended_dimension,
            dimension,
            number_of_subvectors,
            number_of_blobs,
            internal_data_type,
            data_type,
            distance_type,
            _marker: PhantomData,
        }
    }

    /// Overrides the padded stored length, validated eagerly: the override
    /// succeeds exactly when the new value is a multiple of 16 and at least
    /// the declared dimension, and fails with a descriptive error otherwise.
    /// A failed override leaves the prior, still-valid builder untouched
    /// with the caller.
    pub fn extended_dimension(&self, extended_dimension: usize) -> (result: Result<Self, Error>)
        ensures
            result is Ok <==> extended_dimension % 16 == 0 && extended_dimension
                >= self@.dimension,
            result matches Ok(params) ==> params@ == (ConstructParamsView {
                extended_dimension,
                ..self@
            }),
            result matches Ok(params) ==> params@.wf(),
            result matches Err(e) ==> e == (Error::InvalidExtendedDimension {
                extended_dimension,
            }),
    {
        if extended_dimension % 16 == 0 && extended_dimension >= self.dimension {
            Ok(QbgConstructParams { extended_dimension, ..self.clone() })
        } else {
            Err(Error::InvalidExtendedDimension { extended_dimension })
        }
    }

    /// Overrides the quantization granularity. Total: every value is
    /// structurally legal.
    pub fn number_of_subvectors(self, number_of_subvectors: usize) -> (params: Self)
        ensures
            params@ == (ConstructParamsView { number_of_subvectors, ..self@ }),
    {
        QbgConstructParams { number_of_subvectors, ..self }
    }

    /// Overrides the number of blobs. Total: every value is structurally
    /// legal.
    pub fn number_of_blobs(self, number_of_blobs: usize) -> (params: Self)
        ensures
            params@ == (ConstructParamsView { number_of_blobs, ..self@ }),
    {
        QbgConstructParams { number_of_blobs, ..self }
    }

    /// Overrides the element tag the engine uses internally. Total: every
    /// tag is structurally legal.
    pub fn internal_data_type(self, internal_data_type: QbgObject) -> (params: Self)
        ensures
            params@ == (ConstructParamsView { internal_data_type, ..self@ }),
    {
        QbgConstructParams { internal_data_type, ..self }
    }

    /// Overrides the distance kind. Total: every kind is structurally legal.
    pub fn distance_type(self, distance_type: QbgDistance) -> (params: Self)
        ensures
            params@ == (ConstructParamsView { distance_type, ..self@ }),
    {
        QbgConstructParams { distance_type, ..self }
    }

    /// Finalizes the builder into the fixed-layout record, copying every
    /// field exactly and converting each tag to its integer code. Never
    /// re-validates and never fails: the eager validation of every override
    /// means the record is valid by construction.
    pub fn into_raw(self) -> (raw: RawConstructionParams)
        ensures
            raw.extended_dimension == self@.extended_dimension,
            raw.dimension == self@.dimension,
            raw.number_of_subvectors == self@.number_of_subvectors,
            raw.number_of_blobs == self@.number_of_blobs,
            raw.internal_data_type == self@.internal_data_type.spec_code(),
            raw.data_type == self@.data_type.spec_code(),
            raw.distance_type == self@.distance_type.spec_code(),
    {
        RawConstructionParams {
            extended_dimension: self.extended_dimension,
            dimension: self.dimension,
            number_of_subvectors: self.number_of_subvectors,
            number_of_blobs: self.number_of_blobs,
            internal_data_type: self.internal_data_type.code(),
            data_type: self.data_type.code(),
            distance_type: self.distance_type.code(),
        }
    }
}

} // verus!
