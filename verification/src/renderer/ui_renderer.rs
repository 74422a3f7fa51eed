//! The pass that draws the user interface.

use crate::message::Number;
use crate::renderer::framework::{
    BufferUsage, Color, CompareFunc, DrawParameters, ElementRange, FrameBuffer, GeometryBuffer,
    GpuCommand, GpuProgram, GraphicsServer, Point, Rect, RenderPassContainer, ScissorBox, Shader, Shape,
    StandIn, StencilAction, StencilFunc, StencilOp, TextureSource, UniformLocation, UniformValue,
};
use vstd::prelude::*;

verus! {

/// One stop of a gradient.
#[derive(Clone, Copy, Debug, PartialEq, Eq, Structural)]
pub struct GradientPoint {
    pub stop: Number,
    pub color: Color,
}

/// How a drawing command fills its triangles.
#[derive(Clone, Debug, PartialEq, Eq)]
pub enum Brush {
    Solid(Color),
    LinearGradient { from: Point, to: Point, stops: Vec<GradientPoint> },
    RadialGradient { center: Point, stops: Vec<GradientPoint> },
}

/// The texture of a drawing command.
#[derive(Clone, Copy, Debug, PartialEq, Eq, Structural)]
pub enum CommandTexture {
    Blank,
    Texture(u64),
    /// A page of the atlas of a font. `present` says whether the font is
    /// loaded and has the page; the host looks after the texture of such a
    /// page with [`FontPage::renew`] before it draws with it.
    Font { font: u64, height: Number, page_index: usize, present: bool },
}

/// What the host keeps of a page of the atlas of a font: whether the page
/// has a texture, and whether its pixels have changed since the texture
/// was made.
#[derive(Clone, Copy, Debug, PartialEq, Eq, Structural)]
pub struct FontPage {
    pub has_texture: bool,
    pub modified: bool,
}

impl FontPage {
    /// Whether the texture of the page has to be made before the page is
    /// drawn with: it has none, or its pixels have changed.
    pub open spec fn is_stale(&self) -> bool {
        !self.has_texture || self.modified
    }

    /// Looks after the texture of the page before a command draws with it.
    /// Where the page is stale, the host tries to make the texture from the
    /// pixels of the page, and `texture_made` says whether it could: if so,
    /// the page has its texture and counts as unchanged. Otherwise the page
    /// stays as it is. Returns whether the page has a new texture. A page
    /// cannot be drawn with while it has no texture.
    pub fn renew(&mut self, texture_made: bool) -> (renewed: bool)
        requires
            old(self).has_texture || texture_made,
        ensures
            renewed == (old(self).is_stale() && texture_made),
            final(self).has_texture,
            final(self).modified == (old(self).modified && !renewed),
    {
        if (!self.has_texture || self.modified) && texture_made {
            self.has_texture = true;
            self.modified = false;
            true
        } else {
            false
        }
    }
}

/// The rectangle outside of which a drawing command draws nothing, in whole
/// pixels: from `x` to the right by `width`, and up from `bottom` by
/// `height`, with `bottom` counted from the top of the frame.
#[derive(Clone, Copy, Debug, PartialEq, Eq, Structural)]
pub struct ClipBounds {
    pub x: i32,
    pub bottom: i32,
    pub width: i32,
    pub height: i32,
}

/// One drawing command of the user interface.
#[derive(Clone, Debug, PartialEq, Eq)]
pub struct DrawCommand {
    pub clip_bounds: ClipBounds,
    pub brush: Brush,
    pub texture: CommandTexture,
    /// The triangles of the command: from `start` up to, not including,
    /// `end`.
    pub triangles_start: usize,
    pub triangles_end: usize,
    /// Whether the command has geometry of its own to clip by.
    pub has_clipping_geometry: bool,
}

/// What the user interface wants drawn.
pub struct DrawingContext {
    pub commands: Vec<DrawCommand>,
}

impl DrawingContext {
    /// Whether the pass can draw every command, for the viewport.
    pub fn is_drawable(&self, viewport: Rect) -> (b: bool)
        ensures
            b == forall|i: int|
                0 <= i < self.commands@.len() ==> (#[trigger] self.commands@[i]).drawable(viewport),
    {
        let mut i: usize = 0;
        while i < self.commands.len()
            invariant
                0 <= i <= self.commands@.len(),
                forall|j: int| 0 <= j < i ==> (#[trigger] self.commands@[j]).drawable(viewport),
            decreases self.commands@.len() - i,
        {
            if !self.commands[i].is_drawable(viewport) {
                return false;
            }
            i += 1;
        }
        true
    }
}

/// The program that draws geometry flat.
#[derive(Clone, Copy, Debug, PartialEq, Eq, Structural)]
pub struct FlatShader {
    pub program: GpuProgram,
    pub uniform_buffer_binding: UniformLocation,
}

/// A set of parameters to render a drawing context of a user interface.
pub struct UiRenderContext<'a> {
    /// Viewport to where render the user interface.
    pub viewport: Rect,
    /// Frame buffer to where render the user interface.
    pub frame_buffer: &'a FrameBuffer,
    /// Width of the frame buffer.
    pub frame_width: Number,
    /// Height of the frame buffer.
    pub frame_height: Number,
    /// Drawing context of a user interface.
    pub drawing_context: &'a DrawingContext,
    /// The program that draws clipping geometry.
    pub flat_shader: &'a FlatShader,
}

/// User interface renderer: renders a drawing context into a render target.
pub struct UiRenderer {
    pub render_passes: RenderPassContainer,
    pub geometry_buffer: GeometryBuffer,
    pub clipping_geometry_buffer: GeometryBuffer,
}

impl Brush {
    /// The stops of the gradient; none for a solid brush.
    pub open spec fn stops(&self) -> Seq<GradientPoint> {
        match *self {
            Brush::Solid(_) => Seq::<GradientPoint>::empty(),
            Brush::LinearGradient { stops, .. } => stops@,
            Brush::RadialGradient { stops, .. } => stops@,
        }
    }

    /// The number by which the program tells the brushes apart.
    pub open spec fn kind(&self) -> i32 {
        match *self {
            Brush::Solid(_) => 0,
            Brush::LinearGradient { .. } => 1,
            Brush::RadialGradient { .. } => 2,
        }
    }

    /// The colour of a solid brush; white for a gradient.
    pub open spec fn solid_color(&self) -> Color {
        match *self {
            Brush::Solid(color) => color,
            _ => Color { r: 255, g: 255, b: 255, a: 255 },
        }
    }

    /// Where the gradient starts: the start of a linear one, the centre of a
    /// radial one, the origin otherwise.
    pub open spec fn origin(&self) -> Point {
        match *self {
            Brush::Solid(_) => Point::origin_spec(),
            Brush::LinearGradient { from, .. } => from,
            Brush::RadialGradient { center, .. } => center,
        }
    }

    /// Where a linear gradient ends; the origin otherwise.
    pub open spec fn end(&self) -> Point {
        match *self {
            Brush::LinearGradient { to, .. } => to,
            _ => Point::origin_spec(),
        }
    }
}

impl DrawCommand {
    /// What the pass can draw: no more than sixteen stops, triangles that
    /// end where they start or after, and a clip rectangle whose lower edge
    /// lies in the range of the frame's rows counted from below.
    pub open spec fn drawable(&self, viewport: Rect) -> bool {
        &&& self.brush.stops().len() <= 16
        &&& self.triangles_start <= self.triangles_end
        &&& i32::MIN <= viewport.h - self.clip_bounds.bottom <= i32::MAX
    }

    /// Whether the pass can draw the command: see [`DrawCommand::drawable`].
    pub fn is_drawable(&self, viewport: Rect) -> (b: bool)
        ensures
            b == self.drawable(viewport),
    {
        let stops: usize = match &self.brush {
            Brush::Solid(_) => 0,
            Brush::LinearGradient { stops, .. } => stops.len(),
            Brush::RadialGradient { stops, .. } => stops.len(),
        };
        let lower_edge: i64 = viewport.h as i64 - self.clip_bounds.bottom as i64;
        stops <= 16 && self.triangles_start <= self.triangles_end && -0x8000_0000 <= lower_edge
            && lower_edge <= 0x7fff_ffff
    }

    /// The scissor of the command: its clip rectangle, counted from the
    /// lower left corner of the viewport as the GPU counts.
    pub open spec fn scissor(&self, viewport: Rect) -> ScissorBox {
        ScissorBox {
            x: self.clip_bounds.x,
            y: (viewport.h - self.clip_bounds.bottom) as i32,
            width: self.clip_bounds.width,
            height: self.clip_bounds.height,
        }
    }

    /// The texture that the command is drawn with.
    pub open spec fn source(&self) -> TextureSource {
        match self.texture {
            CommandTexture::Font { font, height, page_index, present } => if present {
                TextureSource::FontPage { font, height, page_index }
            } else {
                TextureSource::StandIn(StandIn::White)
            },
            CommandTexture::Texture(resource) => TextureSource::Resource {
                resource,
                stand_in: StandIn::White,
            },
            CommandTexture::Blank => TextureSource::StandIn(StandIn::White),
        }
    }

    /// Whether the command draws text.
    pub open spec fn is_font(&self) -> bool {
        self.texture matches CommandTexture::Font { present, .. } && present
    }
}

impl UiRenderer {
    /// What making the renderer asks of the server.
    pub open spec fn requests(first: u64) -> Seq<GpuCommand> {
        seq![
            GpuCommand::CreateGeometry {
                geometry: GeometryBuffer { id: first },
                shape: Shape::InterfaceTriangles,
                usage: BufferUsage::DynamicDraw,
            },
            GpuCommand::CreateGeometry {
                geometry: GeometryBuffer { id: (first + 1) as u64 },
                shape: Shape::ClippingTriangles,
                usage: BufferUsage::DynamicDraw,
            },
            GpuCommand::CreateRenderPasses {
                passes: RenderPassContainer { id: (first + 2) as u64 },
                shader: Shader::Ui,
            },
        ]
    }

    /// Asks the server for the two buffers of geometry and for the passes of
    /// the shader of the user interface.
    pub fn new(server: &mut GraphicsServer) -> (renderer: UiRenderer)
        requires
            old(server).has_names(3),
        ensures
            renderer.geometry_buffer.id == old(server).next(),
            renderer.clipping_geometry_buffer.id == old(server).next() + 1,
            renderer.render_passes.id == old(server).next() + 2,
            final(server).next() == old(server).next() + 3,
            final(server).recorded() == old(server).recorded() + Self::requests(
                old(server).next(),
            ),
    {
        let geometry_buffer = server.create_geometry(
            Shape::InterfaceTriangles,
            BufferUsage::DynamicDraw,
        );
        let clipping_geometry_buffer = server.create_geometry(
            Shape::ClippingTriangles,
            BufferUsage::DynamicDraw,
        );
        let render_passes = server.create_render_passes(Shader::Ui);
        proof {
            assert(server.recorded() =~= old(server).recorded() + Self::requests(
                old(server).next(),
            ));
        }
        UiRenderer { render_passes, geometry_buffer, clipping_geometry_buffer }
    }

    /// How clipping geometry is drawn: no colour, no depth, and one more in
    /// the stencil wherever it covers a pixel.
    pub open spec fn clipping_parameters(scissor: ScissorBox) -> DrawParameters {
        DrawParameters {
            color_write: false,
            stencil_op: StencilOp { zpass: StencilAction::Incr, ..StencilOp::keep() },
            scissor_box: Some(scissor),
            ..DrawParameters::plain()
        }
    }

    /// The stencil test that lets through the pixels that clipping geometry
    /// has marked.
    pub open spec fn marked() -> StencilFunc {
        StencilFunc { func: CompareFunc::Equal, ref_value: 1, mask: 0xFFFF_FFFF }
    }

    /// How the triangles of a command are drawn: blended by alpha, inside
    /// the scissor, and, where the command clips by geometry, only on marked
    /// pixels.
    pub open spec fn parameters(command: &DrawCommand, viewport: Rect) -> DrawParameters {
        DrawParameters {
            stencil_test: if command.has_clipping_geometry {
                Some(Self::marked())
            } else {
                None
            },
            blend: Some(DrawParameters::alpha()),
            scissor_box: Some(command.scissor(viewport)),
            ..DrawParameters::plain()
        }
    }

    /// What clipping by the geometry of the command at `index` asks of the
    /// server: a stencil of zero, the geometry, the projection, and a draw
    /// of the geometry that marks the stencil.
    pub open spec fn clipping_requests(
        &self,
        args: &UiRenderContext,
        index: usize,
    ) -> Seq<GpuCommand> {
        let command = args.drawing_context.commands@[index as int];
        seq![
            GpuCommand::Clear {
                frame_buffer: args.frame_buffer.gpu,
                viewport: args.viewport,
                color: None,
                depth: false,
                stencil: Some(0),
            },
            GpuCommand::UploadClipping { geometry: self.clipping_geometry_buffer, command: index },
            GpuCommand::Bind {
                location: args.flat_shader.uniform_buffer_binding,
                value: UniformValue::Ortho { width: args.frame_width, height: args.frame_height },
            },
            GpuCommand::Draw {
                frame_buffer: args.frame_buffer.gpu,
                geometry: self.clipping_geometry_buffer,
                viewport: args.viewport,
                program: args.flat_shader.program,
                params: Self::clipping_parameters(command.scissor(args.viewport)),
                range: ElementRange::Full,
            },
        ]
    }

    /// What the program gets for place `i` of the sixteen that it has for
    /// the stops of a gradient: the stop `i`, or, where the gradient has no
    /// such stop, the number zero and the colour whose parts are all zero.
    pub open spec fn stop_at(stops: Seq<GradientPoint>, i: int) -> GpuCommand {
        if 0 <= i < stops.len() {
            GpuCommand::GradientStop { index: i as usize, stop: stops[i].stop, color: stops[i].color }
        } else {
            GpuCommand::GradientStop {
                index: i as usize,
                stop: Number::zero_spec(),
                color: Color { r: 0, g: 0, b: 0, a: 0 },
            }
        }
    }

    /// What the program gets for the first `n` of its places for stops.
    pub open spec fn stop_requests(stops: Seq<GradientPoint>, n: nat) -> Seq<GpuCommand> {
        Seq::new(n, |i: int| Self::stop_at(stops, i))
    }

    /// The draw of the triangles of the command at `index`.
    pub open spec fn pass_request(&self, args: &UiRenderContext, index: usize) -> GpuCommand {
        let command = args.drawing_context.commands@[index as int];
        GpuCommand::RunUiPass {
            passes: self.render_passes,
            frame_buffer: args.frame_buffer.gpu,
            geometry: self.geometry_buffer,
            viewport: args.viewport,
            command: index,
            texture: command.source(),
            is_font: command.is_font(),
            solid_color: command.brush.solid_color(),
            brush_type: command.brush.kind(),
            gradient_point_count: command.brush.stops().len() as i32,
            gradient_origin: command.brush.origin(),
            gradient_end: command.brush.end(),
            frame_width: args.frame_width,
            frame_height: args.frame_height,
            range: ElementRange::Specific {
                offset: command.triangles_start,
                count: (command.triangles_end - command.triangles_start) as usize,
            },
            params: Self::parameters(&command, args.viewport),
        }
    }

    /// What drawing the command at `index` asks of the server: the clipping,
    /// where the command clips by geometry; the stops of its gradient; and
    /// the draw of its triangles.
    pub open spec fn command_requests(&self, args: &UiRenderContext, index: usize) -> Seq<
        GpuCommand,
    > {
        let command = args.drawing_context.commands@[index as int];
        (if command.has_clipping_geometry {
            self.clipping_requests(args, index)
        } else {
            Seq::<GpuCommand>::empty()
        }) + Self::stop_requests(command.brush.stops(), 16).push(self.pass_request(args, index))
    }

    /// What drawing the first `n` commands asks of the server.
    pub open spec fn commands_requests(&self, args: &UiRenderContext, n: nat) -> Seq<GpuCommand>
        decreases n,
    {
        if n == 0 {
            Seq::<GpuCommand>::empty()
        } else {
            self.commands_requests(args, (n - 1) as nat) + self.command_requests(
                args,
                (n - 1) as usize,
            )
        }
    }

    /// How many of the first `n` commands clip by geometry.
    pub open spec fn clipped(commands: Seq<DrawCommand>, n: nat) -> nat
        decreases n,
    {
        if n == 0 {
            0
        } else {
            Self::clipped(commands, (n - 1) as nat) + if commands[n - 1].has_clipping_geometry {
                1nat
            } else {
                0nat
            }
        }
    }

    /// Records what the program gets for its sixteen places for stops.
    fn record_stops(server: &mut GraphicsServer, stops: &Vec<GradientPoint>)
        requires
            stops@.len() <= 16,
        ensures
            final(server).next() == old(server).next(),
            final(server).recorded() == old(server).recorded() + Self::stop_requests(stops@, 16),
    {
        let mut i: usize = 0;
        proof {
            assert(old(server).recorded() + Self::stop_requests(stops@, 0)
                =~= old(server).recorded());
        }
        while i < 16
            invariant
                0 <= i <= 16,
                server.next() == old(server).next(),
                server.recorded() == old(server).recorded() + Self::stop_requests(
                    stops@,
                    i as nat,
                ),
            decreases 16 - i,
        {
            let entry = if i < stops.len() {
                GpuCommand::GradientStop { index: i, stop: stops[i].stop, color: stops[i].color }
            } else {
                GpuCommand::GradientStop {
                    index: i,
                    stop: Number::zero(),
                    color: Color { r: 0, g: 0, b: 0, a: 0 },
                }
            };
            server.record(entry);
            proof {
                assert(entry == Self::stop_at(stops@, i as int));
                assert(server.recorded() =~= old(server).recorded() + Self::stop_requests(
                    stops@,
                    (i + 1) as nat,
                ));
            }
            i += 1;
        }
    }

    /// Renders the drawing context of a user interface into the frame
    /// buffer: brings the triangles of the interface to the GPU and draws
    /// the commands in their order. Counts the draws of clipping geometry.
    pub fn render(&mut self, server: &mut GraphicsServer, args: UiRenderContext) -> (statistics:
        crate::renderer::framework::RenderPassStatistics)
        requires
            forall|i: int|
                0 <= i < args.drawing_context.commands@.len()
                    ==> #[trigger] args.drawing_context.commands@[i].drawable(args.viewport),
        ensures
            *final(self) == *old(self),
            final(server).next() == old(server).next(),
            final(server).recorded() == old(server).recorded().push(
                GpuCommand::UploadInterface { geometry: old(self).geometry_buffer },
            ) + old(self).commands_requests(&args, args.drawing_context.commands@.len()),
            statistics.draw_calls == Self::clipped(
                args.drawing_context.commands@,
                args.drawing_context.commands@.len(),
            ),
    {
        let commands = &args.drawing_context.commands;
        let mut draw_calls: usize = 0;
        server.record(GpuCommand::UploadInterface { geometry: self.geometry_buffer });
        let ghost start = server.recorded();
        let mut index: usize = 0;
        proof {
            assert(start + self.commands_requests(&args, 0) =~= start);
        }
        while index < commands.len()
            invariant
                0 <= index <= commands@.len(),
                *commands == args.drawing_context.commands,
                *self == *old(self),
                forall|i: int|
                    0 <= i < commands@.len() ==> #[trigger] commands@[i].drawable(args.viewport),
                server.next() == old(server).next(),
                server.recorded() == start + self.commands_requests(&args, index as nat),
                draw_calls == Self::clipped(commands@, index as nat),
                draw_calls <= index,
            decreases commands@.len() - index,
        {
            let cmd = &commands[index];
            let ghost here = server.recorded();
            proof {
                assert(cmd.drawable(args.viewport));
            }
            let scissor = ScissorBox {
                x: cmd.clip_bounds.x,
                // The GPU counts rows from below.
                y: args.viewport.h - cmd.clip_bounds.bottom,
                width: cmd.clip_bounds.width,
                height: cmd.clip_bounds.height,
            };
            let mut stencil_test: Option<StencilFunc> = None;
            // Clipping geometry comes first where there is any; most of the
            // time the scissor does the job.
            if cmd.has_clipping_geometry {
                args.frame_buffer.clear(server, args.viewport, None, false, Some(0));
                server.record(
                    GpuCommand::UploadClipping {
                        geometry: self.clipping_geometry_buffer,
                        command: index,
                    },
                );
                server.record(
                    GpuCommand::Bind {
                        location: args.flat_shader.uniform_buffer_binding,
                        value: UniformValue::Ortho {
                            width: args.frame_width,
                            height: args.frame_height,
                        },
                    },
                );
                args.frame_buffer.draw(
                    server,
                    self.clipping_geometry_buffer,
                    args.viewport,
                    args.flat_shader.program,
                    DrawParameters {
                        cull_back_faces: false,
                        color_write: false,
                        depth_write: false,
                        stencil_test: None,
                        depth_test: None,
                        blend: None,
                        stencil_op: StencilOp {
                            fail: StencilAction::Keep,
                            zfail: StencilAction::Keep,
                            zpass: StencilAction::Incr,
                            write_mask: 0xFFFF_FFFF,
                        },
                        scissor_box: Some(scissor),
                    },
                    ElementRange::Full,
                );
                draw_calls += 1;
                // The triangles of the command go only where the stencil is
                // marked.
                stencil_test = Some(
                    StencilFunc { func: CompareFunc::Equal, ref_value: 1, mask: 0xFFFF_FFFF },
                );
                proof {
                    assert(server.recorded() =~= here + self.clipping_requests(&args, index));
                }
            } else {
                proof {
                    assert(server.recorded() =~= here + Seq::<GpuCommand>::empty());
                }
            }
            let ghost clipped = server.recorded();
            let texture = match cmd.texture {
                CommandTexture::Font { font, height, page_index, present } => if present {
                    TextureSource::FontPage { font, height, page_index }
                } else {
                    TextureSource::StandIn(StandIn::White)
                },
                CommandTexture::Texture(resource) => TextureSource::Resource {
                    resource,
                    stand_in: StandIn::White,
                },
                CommandTexture::Blank => TextureSource::StandIn(StandIn::White),
            };
            let is_font = match cmd.texture {
                CommandTexture::Font { present, .. } => present,
                _ => false,
            };
            let (gradient_origin, gradient_end) = match &cmd.brush {
                Brush::Solid(_) => (Point::origin(), Point::origin()),
                Brush::LinearGradient { from, to, .. } => (*from, *to),
                Brush::RadialGradient { center, .. } => (*center, Point::origin()),
            };
            let solid_color = match &cmd.brush {
                Brush::Solid(color) => *color,
                _ => Color { r: 255, g: 255, b: 255, a: 255 },
            };
            let brush_type: i32 = match &cmd.brush {
                Brush::Solid(_) => 0,
                Brush::LinearGradient { .. } => 1,
                Brush::RadialGradient { .. } => 2,
            };
            let gradient_point_count: i32 = match &cmd.brush {
                Brush::Solid(_) => {
                    let none: Vec<GradientPoint> = Vec::new();
                    proof {
                        assert(none@ =~= cmd.brush.stops());
                    }
                    Self::record_stops(server, &none);
                    0
                },
                Brush::LinearGradient { stops, .. } => {
                    Self::record_stops(server, stops);
                    stops.len() as i32
                },
                Brush::RadialGradient { stops, .. } => {
                    Self::record_stops(server, stops);
                    stops.len() as i32
                },
            };
            server.record(
                GpuCommand::RunUiPass {
                    passes: self.render_passes,
                    frame_buffer: args.frame_buffer.gpu,
                    geometry: self.geometry_buffer,
                    viewport: args.viewport,
                    command: index,
                    texture,
                    is_font,
                    solid_color,
                    brush_type,
                    gradient_point_count,
                    gradient_origin,
                    gradient_end,
                    frame_width: args.frame_width,
                    frame_height: args.frame_height,
                    range: ElementRange::Specific {
                        offset: cmd.triangles_start,
                        count: cmd.triangles_end - cmd.triangles_start,
                    },
                    params: DrawParameters {
                        cull_back_faces: false,
                        color_write: true,
                        depth_write: false,
                        stencil_test,
                        depth_test: None,
                        blend: Some(DrawParameters::alpha_blend()),
                        stencil_op: StencilOp::default(),
                        scissor_box: Some(scissor),
                    },
                },
            );
            proof {
                assert(server.recorded() =~= here + self.command_requests(&args, index));
                assert(server.recorded() =~= start + self.commands_requests(
                    &args,
                    (index + 1) as nat,
                ));
            }
            index += 1;
        }
        crate::renderer::framework::RenderPassStatistics { draw_calls }
    }
}

} // verus!
