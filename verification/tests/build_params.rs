use qbg::build_params::{QbgBuildParams, RawBuildParams};
use qbg::tags::QbgClusteringInitMode;

fn default_raw() -> RawBuildParams {
    QbgBuildParams::default().into_raw()
}

#[test]
fn defaults_match_the_documented_values() {
    let raw = default_raw();
    assert_eq!(raw.hierarchical_clustering_init_mode, 2);
    assert_eq!(raw.number_of_first_objects, 0);
    assert_eq!(raw.number_of_first_clusters, 0);
    assert_eq!(raw.number_of_second_objects, 0);
    assert_eq!(raw.number_of_second_clusters, 0);
    assert_eq!(raw.number_of_third_clusters, 0);
    assert_eq!(raw.number_of_objects, 1000);
    assert_eq!(raw.number_of_subvectors, 1);
    assert_eq!(raw.optimization_clustering_init_mode, 2);
    assert_eq!(raw.rotation_iteration, 2000);
    assert_eq!(raw.subvector_iteration, 400);
    assert_eq!(raw.number_of_matrices, 3);
    assert!(raw.rotation);
    assert!(!raw.repositioning);
}

#[test]
fn every_override_changes_only_its_targeted_field() {
    let raw = QbgBuildParams::default()
        .hierarchical_clustering_init_mode(QbgClusteringInitMode::Head)
        .into_raw();
    assert_eq!(raw.hierarchical_clustering_init_mode, 0);
    assert_eq!(RawBuildParams { hierarchical_clustering_init_mode: 2, ..raw }, default_raw());

    let raw = QbgBuildParams::default().number_of_first_objects(11).into_raw();
    assert_eq!(raw.number_of_first_objects, 11);
    assert_eq!(RawBuildParams { number_of_first_objects: 0, ..raw }, default_raw());

    let raw = QbgBuildParams::default().number_of_first_clusters(12).into_raw();
    assert_eq!(raw.number_of_first_clusters, 12);
    assert_eq!(RawBuildParams { number_of_first_clusters: 0, ..raw }, default_raw());

    let raw = QbgBuildParams::default().number_of_second_objects(13).into_raw();
    assert_eq!(raw.number_of_second_objects, 13);
    assert_eq!(RawBuildParams { number_of_second_objects: 0, ..raw }, default_raw());

    let raw = QbgBuildParams::default().number_of_second_clusters(14).into_raw();
    assert_eq!(raw.number_of_second_clusters, 14);
    assert_eq!(RawBuildParams { number_of_second_clusters: 0, ..raw }, default_raw());

    let raw = QbgBuildParams::default().number_of_third_clusters(15).into_raw();
    assert_eq!(raw.number_of_third_clusters, 15);
    assert_eq!(RawBuildParams { number_of_third_clusters: 0, ..raw }, default_raw());

    let raw = QbgBuildParams::default().number_of_objects(16).into_raw();
    assert_eq!(raw.number_of_objects, 16);
    assert_eq!(RawBuildParams { number_of_objects: 1000, ..raw }, default_raw());

    let raw = QbgBuildParams::default().number_of_subvectors(17).into_raw();
    assert_eq!(raw.number_of_subvectors, 17);
    assert_eq!(RawBuildParams { number_of_subvectors: 1, ..raw }, default_raw());

    let raw = QbgBuildParams::default()
        .optimization_clustering_init_mode(QbgClusteringInitMode::Best)
        .into_raw();
    assert_eq!(raw.optimization_clustering_init_mode, 5);
    assert_eq!(RawBuildParams { optimization_clustering_init_mode: 2, ..raw }, default_raw());

    let raw = QbgBuildParams::default().rotation_iteration(18).into_raw();
    assert_eq!(raw.rotation_iteration, 18);
    assert_eq!(RawBuildParams { rotation_iteration: 2000, ..raw }, default_raw());

    let raw = QbgBuildParams::default().subvector_iteration(19).into_raw();
    assert_eq!(raw.subvector_iteration, 19);
    assert_eq!(RawBuildParams { subvector_iteration: 400, ..raw }, default_raw());

    let raw = QbgBuildParams::default().number_of_matrices(20).into_raw();
    assert_eq!(raw.number_of_matrices, 20);
    assert_eq!(RawBuildParams { number_of_matrices: 3, ..raw }, default_raw());

    let raw = QbgBuildParams::default().rotation(false).into_raw();
    assert!(!raw.rotation);
    assert_eq!(RawBuildParams { rotation: true, ..raw }, default_raw());

    let raw = QbgBuildParams::default().repositioning(true).into_raw();
    assert!(raw.repositioning);
    assert_eq!(RawBuildParams { repositioning: false, ..raw }, default_raw());
}

#[test]
fn chained_overrides_compose_and_finalize_exactly() {
    let raw = QbgBuildParams::default()
        .hierarchical_clustering_init_mode(QbgClusteringInitMode::RandomFixedSeed)
        .number_of_first_objects(100)
        .number_of_first_clusters(10)
        .number_of_second_objects(200)
        .number_of_second_clusters(20)
        .number_of_third_clusters(30)
        .number_of_objects(5000)
        .number_of_subvectors(8)
        .optimization_clustering_init_mode(QbgClusteringInitMode::KmeansPlusPlusFixedSeed)
        .rotation_iteration(111)
        .subvector_iteration(222)
        .number_of_matrices(7)
        .rotation(false)
        .repositioning(true)
        .into_raw();
    assert_eq!(raw.hierarchical_clustering_init_mode, 3);
    assert_eq!(raw.number_of_first_objects, 100);
    assert_eq!(raw.number_of_first_clusters, 10);
    assert_eq!(raw.number_of_second_objects, 200);
    assert_eq!(raw.number_of_second_clusters, 20);
    assert_eq!(raw.number_of_third_clusters, 30);
    assert_eq!(raw.number_of_objects, 5000);
    assert_eq!(raw.number_of_subvectors, 8);
    assert_eq!(raw.optimization_clustering_init_mode, 4);
    assert_eq!(raw.rotation_iteration, 111);
    assert_eq!(raw.subvector_iteration, 222);
    assert_eq!(raw.number_of_matrices, 7);
    assert!(!raw.rotation);
    assert!(raw.repositioning);
}

#[test]
fn clone_preserves_every_build_field() {
    let params = QbgBuildParams::default().number_of_objects(77).rotation(false);
    let cloned = params.clone();
    assert_eq!(cloned.into_raw(), params.into_raw());
}
