//! The pass that smooths the edges of the finished frame.

use crate::renderer::decal::locate;
use crate::renderer::framework::{
    BufferUsage, DrawParameters, ElementRange, FrameBuffer, GeometryBuffer, GpuCommand,
    GpuProgram, GpuTexture, GraphicsServer, Rect, RenderPassStatistics, Shader, Shape,
    TextureSource, Uniform,
    UniformLocation, UniformValue,
};
use vstd::prelude::*;

verus! {

/// The program that smooths edges, with the places of its inputs.
pub struct FxaaShader {
    pub program: GpuProgram,
    pub wvp_matrix: UniformLocation,
    pub screen_texture: UniformLocation,
    pub inverse_screen_size: UniformLocation,
}

impl FxaaShader {
    /// The shader as it is when the program gets the name `first` and the
    /// places of its inputs the three names after it.
    pub open spec fn named(first: u64) -> FxaaShader {
        FxaaShader {
            program: GpuProgram { id: first },
            wvp_matrix: UniformLocation { id: (first + 1) as u64 },
            screen_texture: UniformLocation { id: (first + 2) as u64 },
            inverse_screen_size: UniformLocation { id: (first + 3) as u64 },
        }
    }

    /// What making the shader asks of the server.
    pub open spec fn requests(first: u64) -> Seq<GpuCommand> {
        seq![
            GpuCommand::CreateProgram { program: GpuProgram { id: first }, shader: Shader::Fxaa },
            locate(first, 1, Uniform::WorldViewProjection),
            locate(first, 2, Uniform::ScreenTexture),
            locate(first, 3, Uniform::InverseScreenSize),
        ]
    }

    /// Asks the server for the program and for the places of its inputs.
    pub fn new(server: &mut GraphicsServer) -> (shader: FxaaShader)
        requires
            old(server).has_names(4),
        ensures
            shader == FxaaShader::named(old(server).next()),
            final(server).next() == old(server).next() + 4,
            final(server).recorded() == old(server).recorded() + FxaaShader::requests(
                old(server).next(),
            ),
    {
        let program = server.create_program(Shader::Fxaa);
        let wvp_matrix = server.uniform_location(program, Uniform::WorldViewProjection);
        let screen_texture = server.uniform_location(program, Uniform::ScreenTexture);
        let inverse_screen_size = server.uniform_location(program, Uniform::InverseScreenSize);
        proof {
            assert(server.recorded() =~= old(server).recorded() + FxaaShader::requests(
                old(server).next(),
            ));
        }
        FxaaShader { program, wvp_matrix, screen_texture, inverse_screen_size }
    }
}

/// The pass: its program and the square it draws.
pub struct FxaaRenderer {
    pub shader: FxaaShader,
    pub quad: GeometryBuffer,
}

impl FxaaRenderer {
    /// Asks the server for the program and for the unit square.
    pub fn new(server: &mut GraphicsServer) -> (renderer: FxaaRenderer)
        requires
            old(server).has_names(5),
        ensures
            renderer.shader == FxaaShader::named(old(server).next()),
            renderer.quad.id == old(server).next() + 4,
            final(server).next() == old(server).next() + 5,
            final(server).recorded() == old(server).recorded() + FxaaShader::requests(
                old(server).next(),
            ).push(
                GpuCommand::CreateGeometry {
                    geometry: renderer.quad,
                    shape: Shape::UnitQuad,
                    usage: BufferUsage::StaticDraw,
                },
            ),
    {
        let shader = FxaaShader::new(server);
        let quad = server.create_geometry(Shape::UnitQuad, BufferUsage::StaticDraw);
        proof {
            assert(server.recorded() =~= old(server).recorded() + FxaaShader::requests(
                old(server).next(),
            ).push(
                GpuCommand::CreateGeometry {
                    geometry: quad,
                    shape: Shape::UnitQuad,
                    usage: BufferUsage::StaticDraw,
                },
            ));
        }
        FxaaRenderer { shader, quad }
    }

    /// What the pass asks of the server: the square over the whole viewport,
    /// one over the viewport's size, the frame as the texture to read, and
    /// one plain draw of the square.
    pub open spec fn requests(
        &self,
        viewport: Rect,
        frame_texture: GpuTexture,
        frame_buffer: FrameBuffer,
    ) -> Seq<GpuCommand> {
        seq![
            GpuCommand::Bind {
                location: self.shader.wvp_matrix,
                value: UniformValue::Frame { width: viewport.w, height: viewport.h },
            },
            GpuCommand::Bind {
                location: self.shader.inverse_screen_size,
                value: UniformValue::InverseSize { width: viewport.w, height: viewport.h },
            },
            GpuCommand::Bind {
                location: self.shader.screen_texture,
                value: UniformValue::Texture(TextureSource::Gpu(frame_texture)),
            },
            GpuCommand::Draw {
                frame_buffer: frame_buffer.gpu,
                geometry: self.quad,
                viewport,
                program: self.shader.program,
                params: DrawParameters::plain(),
                range: ElementRange::Full,
            },
        ]
    }

    /// Draws the frame in `frame_texture` into `frame_buffer`, smoothed, with
    /// one draw.
    pub fn render(
        &self,
        server: &mut GraphicsServer,
        viewport: Rect,
        frame_texture: GpuTexture,
        frame_buffer: &FrameBuffer,
    ) -> (statistics: RenderPassStatistics)
        ensures
            final(server).next() == old(server).next(),
            final(server).recorded() == old(server).recorded() + self.requests(
                viewport,
                frame_texture,
                *frame_buffer,
            ),
            statistics.draw_calls == 1,
    {
        server.record(
            GpuCommand::Bind {
                location: self.shader.wvp_matrix,
                value: UniformValue::Frame { width: viewport.w, height: viewport.h },
            },
        );
        server.record(
            GpuCommand::Bind {
                location: self.shader.inverse_screen_size,
                value: UniformValue::InverseSize { width: viewport.w, height: viewport.h },
            },
        );
        server.record(
            GpuCommand::Bind {
                location: self.shader.screen_texture,
                value: UniformValue::Texture(TextureSource::Gpu(frame_texture)),
            },
        );
        frame_buffer.draw(
            server,
            self.quad,
            viewport,
            self.shader.program,
            DrawParameters::overwrite(),
            ElementRange::Full,
        );
        proof {
            assert(server.recorded() =~= old(server).recorded() + self.requests(
                viewport,
                frame_texture,
                *frame_buffer,
            ));
        }
        RenderPassStatistics { draw_calls: 1 }
    }
}

} // verus!
