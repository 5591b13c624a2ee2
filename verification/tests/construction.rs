use qbg::construction::{next_multiple_of_16, QbgConstructParams};
use qbg::element::{Float16Element, Float32Element, QbgObjectType, Uint8Element};
use qbg::error::Error;
use qbg::tags::{QbgDistance, QbgObject};

#[test]
fn test_qbg_params() {
    let params = QbgConstructParams::<Float32Element>::dimension(3);
    assert_eq!(params.into_raw().extended_dimension, 16);

    let params = QbgConstructParams::<Uint8Element>::dimension(16);
    assert_eq!(params.into_raw().extended_dimension, 16);

    let params = QbgConstructParams::<Float32Element>::dimension(513);
    assert_eq!(params.into_raw().extended_dimension, 528);
}

#[test]
fn extended_dimension_is_smallest_multiple_of_16() {
    assert_eq!(next_multiple_of_16(1), 16);
    assert_eq!(next_multiple_of_16(3), 16);
    assert_eq!(next_multiple_of_16(16), 16);
    assert_eq!(next_multiple_of_16(17), 32);
    assert_eq!(next_multiple_of_16(512), 512);
    assert_eq!(next_multiple_of_16(513), 528);
}

#[test]
fn creation_fills_every_field_with_its_default() {
    let raw = QbgConstructParams::<Uint8Element>::dimension(20).into_raw();
    assert_eq!(raw.extended_dimension, 32);
    assert_eq!(raw.dimension, 20);
    assert_eq!(raw.number_of_subvectors, 1);
    assert_eq!(raw.number_of_blobs, 0);
    assert_eq!(raw.internal_data_type, 0);
    assert_eq!(raw.data_type, 0);
    assert_eq!(raw.distance_type, 1);
}

#[test]
fn element_representations_map_to_distinct_tags() {
    assert_eq!(Uint8Element::as_obj(), QbgObject::Uint8);
    assert_eq!(Float32Element::as_obj(), QbgObject::Float);
    assert_eq!(Float16Element::as_obj(), QbgObject::Float16);
    assert_eq!(Uint8Element::as_obj().code(), 0);
    assert_eq!(Float32Element::as_obj().code(), 1);
    assert_eq!(Float16Element::as_obj().code(), 2);
}

#[test]
fn override_accepts_exactly_aligned_values_at_or_above_dimension() {
    let params = QbgConstructParams::<Float32Element>::dimension(16);
    assert!(params.extended_dimension(15).is_err());

    let params = QbgConstructParams::<Float32Element>::dimension(16);
    let params = params.extended_dimension(32).unwrap();
    assert_eq!(params.into_raw().extended_dimension, 32);

    let params = QbgConstructParams::<Float32Element>::dimension(32);
    assert!(params.extended_dimension(16).is_err());

    let params = QbgConstructParams::<Float32Element>::dimension(32);
    let params = params.extended_dimension(32).unwrap();
    assert_eq!(params.into_raw().extended_dimension, 32);
}

#[test]
fn rejected_override_names_the_value_and_the_constraint() {
    let params = QbgConstructParams::<Uint8Element>::dimension(16);
    let error = params.extended_dimension(15).unwrap_err();
    assert_eq!(error, Error::InvalidExtendedDimension { extended_dimension: 15 });
    assert_eq!(
        error.message(),
        "Invalid extended_dimension: 15, must be a multiple of 16 greater or equal to dimension"
    );
}

#[test]
fn each_override_changes_only_its_targeted_field() {
    let base = QbgConstructParams::<Float16Element>::dimension(40);
    let raw = base
        .clone()
        .number_of_subvectors(8)
        .number_of_blobs(5)
        .internal_data_type(QbgObject::Uint8)
        .distance_type(QbgDistance::L2)
        .into_raw();
    assert_eq!(raw.extended_dimension, 48);
    assert_eq!(raw.dimension, 40);
    assert_eq!(raw.number_of_subvectors, 8);
    assert_eq!(raw.number_of_blobs, 5);
    assert_eq!(raw.internal_data_type, 0);
    assert_eq!(raw.data_type, 2);
    assert_eq!(raw.distance_type, 1);

    let untouched = base.into_raw();
    assert_eq!(untouched.number_of_subvectors, 1);
    assert_eq!(untouched.number_of_blobs, 0);
    assert_eq!(untouched.internal_data_type, 2);
}

#[test]
fn failed_override_leaves_the_prior_builder_untouched() {
    let params = QbgConstructParams::<Float32Element>::dimension(20);
    assert!(params.extended_dimension(17).is_err());
    let raw = params.into_raw();
    assert_eq!(raw.extended_dimension, 32);
    assert_eq!(raw.dimension, 20);
}

#[test]
fn finalize_preserves_the_last_set_values() {
    let params = QbgConstructParams::<Float32Element>::dimension(100)
        .extended_dimension(112)
        .unwrap()
        .number_of_subvectors(4);
    let raw = params.into_raw();
    assert_eq!(raw.extended_dimension, 112);
    assert_eq!(raw.dimension, 100);
    assert_eq!(raw.number_of_subvectors, 4);
}

#[test]
fn clone_preserves_every_field() {
    let params = QbgConstructParams::<Uint8Element>::dimension(24).number_of_blobs(9);
    let cloned = params.clone();
    assert_eq!(params, cloned);
    assert_eq!(cloned.into_raw(), params.into_raw());
}
