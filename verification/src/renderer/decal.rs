//! The program that draws decals.

use crate::renderer::framework::{
    GpuCommand, GpuProgram, GraphicsServer, Shader, Uniform, UniformLocation,
};
use vstd::prelude::*;

verus! {

/// The program that draws decals, with the places of its inputs.
pub struct DecalShader {
    pub world_view_projection: UniformLocation,
    pub scene_depth: UniformLocation,
    pub diffuse_texture: UniformLocation,
    pub normal_texture: UniformLocation,
    pub inv_view_proj: UniformLocation,
    pub inv_world_decal: UniformLocation,
    pub resolution: UniformLocation,
    pub color: UniformLocation,
    pub layer_index: UniformLocation,
    pub decal_mask: UniformLocation,
    pub program: GpuProgram,
}

/// The request for the place of an input, where the program has the name
/// `first` and the place the name `first + k`.
pub open spec fn locate(first: u64, k: u64, uniform: Uniform) -> GpuCommand {
    GpuCommand::LocateUniform {
        location: UniformLocation { id: (first + k) as u64 },
        program: GpuProgram { id: first },
        uniform,
    }
}

impl DecalShader {
    /// The shader as it is when the program gets the name `first` and the
    /// places of its inputs the ten names after it.
    pub open spec fn named(first: u64) -> DecalShader {
        DecalShader {
            program: GpuProgram { id: first },
            world_view_projection: UniformLocation { id: (first + 1) as u64 },
            scene_depth: UniformLocation { id: (first + 2) as u64 },
            diffuse_texture: UniformLocation { id: (first + 3) as u64 },
            normal_texture: UniformLocation { id: (first + 4) as u64 },
            inv_view_proj: UniformLocation { id: (first + 5) as u64 },
            inv_world_decal: UniformLocation { id: (first + 6) as u64 },
            resolution: UniformLocation { id: (first + 7) as u64 },
            color: UniformLocation { id: (first + 8) as u64 },
            layer_index: UniformLocation { id: (first + 9) as u64 },
            decal_mask: UniformLocation { id: (first + 10) as u64 },
        }
    }

    /// What making the shader asks of the server: the program, then the
    /// place of each input.
    pub open spec fn requests(first: u64) -> Seq<GpuCommand> {
        seq![
            GpuCommand::CreateProgram { program: GpuProgram { id: first }, shader: Shader::Decal },
            locate(first, 1, Uniform::WorldViewProjection),
            locate(first, 2, Uniform::SceneDepth),
            locate(first, 3, Uniform::DiffuseTexture),
            locate(first, 4, Uniform::NormalTexture),
            locate(first, 5, Uniform::InvViewProj),
            locate(first, 6, Uniform::InvWorldDecal),
            locate(first, 7, Uniform::Resolution),
            locate(first, 8, Uniform::Color),
            locate(first, 9, Uniform::LayerIndex),
            locate(first, 10, Uniform::DecalMask),
        ]
    }

    /// Asks the server for the program and for the places of its inputs.
    pub fn new(server: &mut GraphicsServer) -> (shader: DecalShader)
        requires
            old(server).has_names(11),
        ensures
            shader == DecalShader::named(old(server).next()),
            final(server).next() == old(server).next() + 11,
            final(server).recorded() == old(server).recorded() + DecalShader::requests(
                old(server).next(),
            ),
    {
        let program = server.create_program(Shader::Decal);
        let world_view_projection = server.uniform_location(program, Uniform::WorldViewProjection);
        let scene_depth = server.uniform_location(program, Uniform::SceneDepth);
        let diffuse_texture = server.uniform_location(program, Uniform::DiffuseTexture);
        let normal_texture = server.uniform_location(program, Uniform::NormalTexture);
        let inv_view_proj = server.uniform_location(program, Uniform::InvViewProj);
        let inv_world_decal = server.uniform_location(program, Uniform::InvWorldDecal);
        let resolution = server.uniform_location(program, Uniform::Resolution);
        let color = server.uniform_location(program, Uniform::Color);
        let layer_index = server.uniform_location(program, Uniform::LayerIndex);
        let decal_mask = server.uniform_location(program, Uniform::DecalMask);
        proof {
            assert(server.recorded() =~= old(server).recorded() + DecalShader::requests(
                old(server).next(),
            ));
        }
        DecalShader {
            world_view_projection,
            scene_depth,
            diffuse_texture,
            normal_texture,
            inv_view_proj,
            inv_world_decal,
            resolution,
            color,
            layer_index,
            decal_mask,
            program,
        }
    }
}

} // verus!
