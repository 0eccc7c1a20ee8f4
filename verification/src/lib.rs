//! Voxel chunk meshing: a fixed-size grid of typed blocks is turned into a
//! triangle mesh by culling faces that a neighbouring solid block occludes.
//! Geometry is kept in exact integer form (positions in half-unit steps,
//! texture coordinates as numerators over the atlas width, light as a
//! percentage); a renderer divides these out when it uploads the mesh.

pub mod block;
pub mod chunk;
pub mod mesh;
pub mod mesher;
