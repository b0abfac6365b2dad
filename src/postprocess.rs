//! The post-processing steps that an import can ask for.

use vstd::prelude::*;

verus! {

/// A post-processing step, or a preset of several, for the importer to run.
#[derive(Clone, Copy, PartialEq, Eq, Debug, Structural)]
pub enum Process {
    /// Computes tangents and bitangents of the meshes.
    CalcTangentSpace,
    /// Joins identical vertices so that an index buffer can be used.
    JoinIdenticalVertices,
    /// Converts the data to a left-handed coordinate system.
    MakeLeftHanded,
    /// Splits faces with more than three indices into triangles.
    Triangulate,
    /// Removes the data components that the configuration names.
    RemoveComponent,
    /// Generates flat normals where the meshes have none.
    GenNormals,
    /// Generates smooth normals where the meshes have none.
    GenSmoothNormals,
    /// Splits meshes with too many vertices or faces.
    SplitLargeMeshes,
    /// Applies the node hierarchy to the vertices and removes it.
    PreTransformVertices,
    /// Limits the number of bones that act on one vertex.
    LimitBoneWeights,
    /// Checks the imported data for consistency.
    ValidateDataStructure,
    /// Reorders triangles for better vertex cache locality.
    ImproveCacheLocality,
    /// Removes unused and duplicate materials.
    RemoveRedundantMaterials,
    /// Inverts normals that point into their mesh.
    FixInfacingNormals,
    /// Splits meshes with several primitive types into one mesh per type.
    SortByPType,
    /// Finds degenerate primitives and turns them into lines or points.
    FindDegenerates,
    /// Finds and removes invalid data, such as zero normals or duplicate animation keys.
    FindInvalidData,
    /// Turns non-UV mappings into UV channels.
    GenUVCoords,
    /// Applies the UV transforms of the materials to the UV coordinates.
    TransformUVCoords,
    /// Finds meshes that are instances of others and shares them.
    FindInstances,
    /// Reduces the number of meshes.
    OptimizeMeshes,
    /// Optimizes the node hierarchy.
    OptimizeGraph,
    /// Flips the V coordinate of all UV coordinates.
    FlipUVs,
    /// Makes the face winding order clockwise.
    FlipWindingOrder,
    /// Splits meshes with many bones into sub-meshes with a bone limit.
    SplitByBoneCount,
    /// Removes bones that do not deform the mesh.
    Debone,
    /// `MakeLeftHanded`, `FlipUVs` and `FlipWindingOrder` together: Direct3D conventions.
    ConvertToLeftHanded,
    /// `CalcTangentSpace`, `GenNormals`, `JoinIdenticalVertices`, `Triangulate`,
    /// `GenUVCoords` and `SortByPType`: fast processing for real-time use.
    PresetTargetRealtimeFast,
    /// `CalcTangentSpace`, `GenSmoothNormals`, `JoinIdenticalVertices`,
    /// `ImproveCacheLocality`, `LimitBoneWeights`, `RemoveRedundantMaterials`,
    /// `SplitLargeMeshes`, `Triangulate`, `GenUVCoords`, `SortByPType`,
    /// `FindDegenerates` and `FindInvalidData`: good output for real-time use.
    PresetTargetRealtimeQuality,
    /// `PresetTargetRealtimeQuality` with `FindInstances`,
    /// `ValidateDataStructure`, `OptimizeMeshes` and `Debone`: the best output
    /// for real-time use.
    PresetTargetRealtimeMaxQuality,
}

impl Process {
    /// The flag bits of this step (of every step, for a preset), as the
    /// importer takes them.
    pub fn bits(self) -> (r: u32)
        ensures
            r == match self {
                Process::CalcTangentSpace => 0x1u32,
                Process::JoinIdenticalVertices => 0x2u32,
                Process::MakeLeftHanded => 0x4u32,
                Process::Triangulate => 0x8u32,
                Process::RemoveComponent => 0x10u32,
                Process::GenNormals => 0x20u32,
                Process::GenSmoothNormals => 0x40u32,
                Process::SplitLargeMeshes => 0x80u32,
                Process::PreTransformVertices => 0x100u32,
                Process::LimitBoneWeights => 0x200u32,
                Process::ValidateDataStructure => 0x400u32,
                Process::ImproveCacheLocality => 0x800u32,
                Process::RemoveRedundantMaterials => 0x1000u32,
                Process::FixInfacingNormals => 0x2000u32,
                Process::SortByPType => 0x8000u32,
                Process::FindDegenerates => 0x10000u32,
                Process::FindInvalidData => 0x20000u32,
                Process::GenUVCoords => 0x40000u32,
                Process::TransformUVCoords => 0x80000u32,
                Process::FindInstances => 0x100000u32,
                Process::OptimizeMeshes => 0x200000u32,
                Process::OptimizeGraph => 0x400000u32,
                Process::FlipUVs => 0x800000u32,
                Process::FlipWindingOrder => 0x1000000u32,
                Process::SplitByBoneCount => 0x2000000u32,
                Process::Debone => 0x4000000u32,
                Process::ConvertToLeftHanded => 0x1800004u32,
                Process::PresetTargetRealtimeFast => 0x4802bu32,
                Process::PresetTargetRealtimeQuality => 0x79acbu32,
                Process::PresetTargetRealtimeMaxQuality => 0x4379ecbu32,
            },
    {
        match self {
            Process::CalcTangentSpace => 0x1,
            Process::JoinIdenticalVertices => 0x2,
            Process::MakeLeftHanded => 0x4,
            Process::Triangulate => 0x8,
            Process::RemoveComponent => 0x10,
            Process::GenNormals => 0x20,
            Process::GenSmoothNormals => 0x40,
            Process::SplitLargeMeshes => 0x80,
            Process::PreTransformVertices => 0x100,
            Process::LimitBoneWeights => 0x200,
            Process::ValidateDataStructure => 0x400,
            Process::ImproveCacheLocality => 0x800,
            Process::RemoveRedundantMaterials => 0x1000,
            Process::FixInfacingNormals => 0x2000,
            Process::SortByPType => 0x8000,
            Process::FindDegenerates => 0x10000,
            Process::FindInvalidData => 0x20000,
            Process::GenUVCoords => 0x40000,
            Process::TransformUVCoords => 0x80000,
            Process::FindInstances => 0x100000,
            Process::OptimizeMeshes => 0x200000,
            Process::OptimizeGraph => 0x400000,
            Process::FlipUVs => 0x800000,
            Process::FlipWindingOrder => 0x1000000,
            Process::SplitByBoneCount => 0x2000000,
            Process::Debone => 0x4000000,
            Process::ConvertToLeftHanded => 0x1800004,
            Process::PresetTargetRealtimeFast => 0x4802b,
            Process::PresetTargetRealtimeQuality => 0x79acb,
            Process::PresetTargetRealtimeMaxQuality => 0x4379ecb,
        }
    }
}

} // verus!
