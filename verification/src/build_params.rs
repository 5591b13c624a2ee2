//! The build parameter builder: accumulates the hierarchical-clustering and
//! rotation-optimization hyperparameters of an index build.
//!
//! Every field carries an engine-appropriate default and is overridable
//! independently; no cross-field invariant exists, so every override is
//! total and finalization never validates.

use vstd::prelude::*;

use crate::tags::QbgClusteringInitMode;

verus! {

/// The state of a build parameter builder, as plain values.
pub struct BuildParamsView {
    pub hierarchical_clustering_init_mode: QbgClusteringInitMode,
    pub number_of_first_objects: usize,
    pub number_of_first_clusters: usize,
    pub number_of_second_objects: usize,
    pub number_of_second_clusters: usize,
    pub number_of_third_clusters: usize,
    pub number_of_objects: usize,
    pub number_of_subvectors: usize,
    pub optimization_clustering_init_mode: QbgClusteringInitMode,
    pub rotation_iteration: usize,
    pub subvector_iteration: usize,
    pub number_of_matrices: usize,
    pub rotation: bool,
    pub repositioning: bool,
}

/// The default state: k-means++ initialization for both phases, 1000
/// sampled objects, one subvector, 2000 rotation iterations, 400 subvector
/// iterations, 3 candidate rotation matrices, rotation applied,
/// repositioning not applied, and no objects or clusters at any hierarchy
/// level.
pub open spec fn default_build_params() -> BuildParamsView {
    BuildParamsView {
        hierarchical_clustering_init_mode: QbgClusteringInitMode::KmeansPlusPlus,
        number_of_first_objects: 0,
        number_of_first_clusters: 0,
        number_of_second_objects: 0,
        number_of_second_clusters: 0,
        number_of_third_clusters: 0,
        number_of_objects: 1000,
        number_of_subvectors: 1,
        optimization_clustering_init_mode: QbgClusteringInitMode::KmeansPlusPlus,
        rotation_iteration: 2000,
        subvector_iteration: 400,
        number_of_matrices: 3,
        rotation: true,
        repositioning: false,
    }
}

/// The fixed-layout build record consumed by the engine's build entry
/// point.
///
/// Field order and integer widths must match the engine's native declaration
/// exactly; each clustering init mode is stored as its integer code.
#[derive(Debug, Clone, Copy, PartialEq, Eq)]
pub struct RawBuildParams {
    pub hierarchical_clustering_init_mode: i32,
    pub number_of_first_objects: usize,
    pub number_of_first_clusters: usize,
    pub number_of_second_objects: usize,
    pub number_of_second_clusters: usize,
    pub number_of_third_clusters: usize,
    pub number_of_objects: usize,
    pub number_of_subvectors: usize,
    pub optimization_clustering_init_mode: i32,
    pub rotation_iteration: usize,
    pub subvector_iteration: usize,
    pub number_of_matrices: usize,
    pub rotation: bool,
    pub repositioning: bool,
}

/// Builder for the build parameters of an index, grouped in two phases:
/// hierarchical clustering and rotation optimization.
#[derive(Debug)]
pub struct QbgBuildParams {
    hierarchical_clustering_init_mode: QbgClusteringInitMode,
    number_of_first_objects: usize,
    number_of_first_clusters: usize,
    number_of_second_objects: usize,
    number_of_second_clusters: usize,
    number_of_third_clusters: usize,
    number_of_objects: usize,
    number_of_subvectors: usize,
    optimization_clustering_init_mode: QbgClusteringInitMode,
    rotation_iteration: usize,
    subvector_iteration: usize,
    number_of_matrices: usize,
    rotation: bool,
    repositioning: bool,
}

impl View for QbgBuildParams {
    type V = BuildParamsView;

    closed spec fn view(&self) -> BuildParamsView {
        BuildParamsView {
            hierarchical_clustering_init_mode: self.hierarchical_clustering_init_mode,
            number_of_first_objects: self.number_of_first_objects,
            number_of_first_clusters: self.number_of_first_clusters,
            number_of_second_objects: self.number_of_second_objects,
            number_of_second_clusters: self.number_of_second_clusters,
            number_of_third_clusters: self.number_of_third_clusters,
            number_of_objects: self.number_of_objects,
            number_of_subvectors: self.number_of_subvectors,
            optimization_clustering_init_mode: self.optimization_clustering_init_mode,
            rotation_iteration: self.rotation_iteration,
            subvector_iteration: self.subvector_iteration,
            number_of_matrices: self.number_of_matrices,
            rotation: self.rotation,
            repositioning: self.repositioning,
        }
    }
}

impl Clone for QbgBuildParams {
    /// Clones the builder; the copy carries exactly the same field values.
    fn clone(&self) -> (cloned: Self)
        ensures
            cloned@ == self@,
    {
        QbgBuildParams {
            hierarchical_clustering_init_mode: self.hierarchical_clustering_init_mode,
            number_of_first_objects: self.number_of_first_objects,
            number_of_first_clusters: self.number_of_first_clusters,
            number_of_second_objects: self.number_of_second_objects,
            number_of_second_clusters: self.number_of_second_clusters,
            number_of_third_clusters: self.number_of_third_clusters,
            number_of_objects: self.number_of_objects,
            number_of_subvectors: self.number_of_subvectors,
            optimization_clustering_init_mode: self.optimization_clustering_init_mode,
            rotation_iteration: self.rotation_iteration,
            subvector_iteration: self.subvector_iteration,
            number_of_matrices: self.number_of_matrices,
            rotation: self.rotation,
            repositioning: self.repositioning,
        }
    }
}

impl Default for QbgBuildParams {
    /// Produces a fully populated instance with the documented defaults,
    /// suitable for a typical build without further tuning.
    fn default() -> (params: Self)
        ensures
            params@ == default_build_params(),
    {
        QbgBuildParams {
            hierarchical_clustering_init_mode: QbgClusteringInitMode::KmeansPlusPlus,
            number_of_first_objects: 0,
            number_of_first_clusters: 0,
            number_of_second_objects: 0,
            number_of_second_clusters: 0,
            number_of_third_clusters: 0,
            number_of_objects: 1000,
            number_of_subvectors: 1,
            optimization_clustering_init_mode: QbgClusteringInitMode::KmeansPlusPlus,
            rotation_iteration: 2000,
            subvector_iteration: 400,
            number_of_matrices: 3,
            rotation: true,
            repositioning: false,
        }
    }
}

impl QbgBuildParams {
    /// Overrides the clustering init mode of the hierarchical phase.
    pub fn hierarchical_clustering_init_mode(
        self,
        clustering_init_mode: QbgClusteringInitMode,
    ) -> (params: Self)
        ensures
            params@ == (BuildParamsView {
                hierarchical_clustering_init_mode: clustering_init_mode,
                ..self@
            }),
    {
        QbgBuildParams { hierarchical_clustering_init_mode: clustering_init_mode, ..self }
    }

    /// Overrides the number of first-level objects.
    pub fn number_of_first_objects(self, number_of_first_objects: usize) -> (params: Self)
        ensures
            params@ == (BuildParamsView { number_of_first_objects, ..self@ }),
    {
        QbgBuildParams { number_of_first_objects, ..self }
    }

    /// Overrides the number of first-level clusters.
    pub fn number_of_first_clusters(self, number_of_first_clusters: usize) -> (params: Self)
        ensures
            params@ == (BuildParamsView { number_of_first_clusters, ..self@ }),
    {
        QbgBuildParams { number_of_first_clusters, ..self }
    }

    /// Overrides the number of second-level objects.
    pub fn number_of_second_objects(self, number_of_second_objects: usize) -> (params: Self)
        ensures
            params@ == (BuildParamsView { number_of_second_objects, ..self@ }),
    {
        QbgBuildParams { number_of_second_objects, ..self }
    }

    /// Overrides the number of second-level clusters.
    pub fn number_of_second_clusters(self, number_of_second_clusters: usize) -> (params: Self)
        ensures
            params@ == (BuildParamsView { number_of_second_clusters, ..self@ }),
    {
        QbgBuildParams { number_of_second_clusters, ..self }
    }

    /// Overrides the number of third-level clusters; the third level has no
    /// object count because it is the leaf assignment.
    pub fn number_of_third_clusters(self, number_of_third_clusters: usize) -> (params: Self)
        ensures
            params@ == (BuildParamsView { number_of_third_clusters, ..self@ }),
    {
        QbgBuildParams { number_of_third_clusters, ..self }
    }

    /// Overrides the number of objects sampled by the optimization phase.
    pub fn number_of_objects(self, number_of_objects: usize) -> (params: Self)
        ensures
            params@ == (BuildParamsView { number_of_objects, ..self@ }),
    {
        QbgBuildParams { number_of_objects, ..self }
    }

    /// Overrides the number of subvectors used by the optimization phase.
    pub fn number_of_subvectors(self, number_of_subvectors: usize) -> (params: Self)
        ensures
            params@ == (BuildParamsView { number_of_subvectors, ..self@ }),
    {
        QbgBuildParams { number_of_subvectors, ..self }
    }

    /// Overrides the clustering init mode of the optimization phase.
    pub fn optimization_clustering_init_mode(
        self,
        clustering_init_mode: QbgClusteringInitMode,
    ) -> (params: Self)
        ensures
            params@ == (BuildParamsView {
                optimization_clustering_init_mode: clustering_init_mode,
                ..self@
            }),
    {
        QbgBuildParams { optimization_clustering_init_mode: clustering_init_mode, ..self }
    }

    /// Overrides the rotation iteration count.
    pub fn rotation_iteration(self, rotation_iteration: usize) -> (params: Self)
        ensures
            params@ == (BuildParamsView { rotation_iteration, ..self@ }),
    {
        QbgBuildParams { rotation_iteration, ..self }
    }

    /// Overrides the subvector iteration count.
    pub fn subvector_iteration(self, subvector_iteration: usize) -> (params: Self)
        ensures
            params@ == (BuildParamsView { subvector_iteration, ..self@ }),
    {
        QbgBuildParams { subvector_iteration, ..self }
    }

    /// Overrides the number of candidate rotation matrices.
    pub fn number_of_matrices(self, number_of_matrices: usize) -> (params: Self)
        ensures
            params@ == (BuildParamsView { number_of_matrices, ..self@ }),
    {
        QbgBuildParams { number_of_matrices, ..self }
    }

    /// Overrides whether rotation is applied.
    pub fn rotation(self, rotation: bool) -> (params: Self)
        ensures
            params@ == (BuildParamsView { rotation, ..self@ }),
    {
        QbgBuildParams { rotation, ..self }
    }

    /// Overrides whether repositioning is applied.
    pub fn repositioning(self, repositioning: bool) -> (params: Self)
        ensures
            params@ == (BuildParamsView { repositioning, ..self@ }),
    {
        QbgBuildParams { repositioning, ..self }
    }

    /// Finalizes the builder into the fixed-layout record, copying every
    /// field exactly and converting each init mode to its integer code.
    /// Never validates and never fails.
    pub fn into_raw(self) -> (raw: RawBuildParams)
        ensures
            raw.hierarchical_clustering_init_mode == self@.hierarchical_clustering_init_mode
                .spec_code(),
            raw.number_of_first_objects == self@.number_of_first_objects,
            raw.number_of_first_clusters == self@.number_of_first_clusters,
            raw.number_of_second_objects == self@.number_of_second_objects,
            raw.number_of_second_clusters == self@.number_of_second_clusters,
            raw.number_of_third_clusters == self@.number_of_third_clusters,
            raw.number_of_objects == self@.number_of_objects,
            raw.number_of_subvectors == self@.number_of_subvectors,
            raw.optimization_clustering_init_mode == self@.optimization_clustering_init_mode
                .spec_code(),
            raw.rotation_iteration == self@.rotation_iteration,
            raw.subvector_iteration == self@.subvector_iteration,
            raw.number_of_matrices == self@.number_of_matrices,
            raw.rotation == self@.rotation,
            raw.repositioning == self@.repositioning,
    {
        RawBuildParams {
            hierarchical_clustering_init_mode: self.hierarchical_clustering_init_mode.code(),
            number_of_first_objects: self.number_of_first_objects,
            number_of_first_clusters: self.number_of_first_clusters,
            number_of_second_objects: self.number_of_second_objects,
            number_of_second_clusters: self.number_of_second_clusters,
            number_of_third_clusters: self.number_of_third_clusters,
            number_of_objects: self.number_of_objects,
            number_of_subvectors: self.number_of_subvectors,
            optimization_clustering_init_mode: self.optimization_clustering_init_mode.code(),
            rotation_iteration: self.rotation_iteration,
            subvector_iteration: self.subvector_iteration,
            number_of_matrices: self.number_of_matrices,
            rotation: self.rotation,
            repositioning: self.repositioning,
        }
    }
}

} // verus!
