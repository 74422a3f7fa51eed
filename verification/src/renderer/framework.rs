//! The graphics server as the passes see it: a recorder. A pass asks for
//! resources and draws; the server hands out names for the resources at
//! once and keeps the requests, in their order, for the host to carry out
//! on the GPU.
//!
//! Recording cannot fail, so a pass returns what it has made and no error.
//! A request can fail when the host carries it out. The requests are
//! carried out in their order and only as far as they succeed: after the
//! first that fails, none of the later ones is carried out, and the error
//! of that one is what the frame ends with. [`GraphicsServer::carry_out`]
//! does this.

use crate::handle::Handle;
use crate::message::Number;
use vstd::prelude::*;

verus! {

#[derive(Clone, Copy, Debug, PartialEq, Eq, Structural)]
pub struct GpuTexture {
    pub id: u64,
}

#[derive(Clone, Copy, Debug, PartialEq, Eq, Structural)]
pub struct GpuFrameBuffer {
    pub id: u64,
}

#[derive(Clone, Copy, Debug, PartialEq, Eq, Structural)]
pub struct GpuProgram {
    pub id: u64,
}

#[derive(Clone, Copy, Debug, PartialEq, Eq, Structural)]
pub struct GeometryBuffer {
    pub id: u64,
}

#[derive(Clone, Copy, Debug, PartialEq, Eq, Structural)]
pub struct UniformLocation {
    pub id: u64,
}

#[derive(Clone, Copy, Debug, PartialEq, Eq, Structural)]
pub struct RenderPassContainer {
    pub id: u64,
}

#[derive(Clone, Copy, Debug, PartialEq, Eq, Structural)]
pub struct OcclusionTester {
    pub id: u64,
}

#[derive(Clone, Copy, Debug, PartialEq, Eq, Structural)]
pub enum PixelKind {
    R8,
    R8UI,
    RGBA8,
    RGBA16F,
    D24S8,
}

#[derive(Clone, Copy, Debug, PartialEq, Eq, Structural)]
pub enum Filter {
    Nearest,
    Linear,
}

#[derive(Clone, Copy, Debug, PartialEq, Eq, Structural)]
pub enum Coordinate {
    S,
    T,
}

#[derive(Clone, Copy, Debug, PartialEq, Eq, Structural)]
pub enum WrapMode {
    Repeat,
    ClampToEdge,
}

#[derive(Clone, Copy, Debug, PartialEq, Eq, Structural)]
pub enum AttachmentKind {
    Color,
    DepthStencil,
}

/// A texture in its place in a frame buffer.
#[derive(Clone, Copy, Debug, PartialEq, Eq, Structural)]
pub struct Attachment {
    pub kind: AttachmentKind,
    pub texture: GpuTexture,
}

/// The programs that the passes run.
#[derive(Clone, Copy, Debug, PartialEq, Eq, Structural)]
pub enum Shader {
    Decal,
    Fxaa,
    Flat,
    Ui,
}

/// The inputs of the programs, by their names in the programs.
#[derive(Clone, Copy, Debug, PartialEq, Eq, Structural)]
pub enum Uniform {
    WorldViewProjection,
    SceneDepth,
    DiffuseTexture,
    NormalTexture,
    InvViewProj,
    InvWorldDecal,
    Resolution,
    Color,
    LayerIndex,
    DecalMask,
    ScreenTexture,
    InverseScreenSize,
}

impl Uniform {
    /// The name of the input in the source of the program.
    pub fn name(self) -> (s: &'static str)
        ensures
            s@ == match self {
                Uniform::WorldViewProjection => "worldViewProjection"@,
                Uniform::SceneDepth => "sceneDepth"@,
                Uniform::DiffuseTexture => "diffuseTexture"@,
                Uniform::NormalTexture => "normalTexture"@,
                Uniform::InvViewProj => "invViewProj"@,
                Uniform::InvWorldDecal => "invWorldDecal"@,
                Uniform::Resolution => "resolution"@,
                Uniform::Color => "color"@,
                Uniform::LayerIndex => "layerIndex"@,
                Uniform::DecalMask => "decalMask"@,
                Uniform::ScreenTexture => "screenTexture"@,
                Uniform::InverseScreenSize => "inverseScreenSize"@,
            },
    {
        match self {
            Uniform::WorldViewProjection => "worldViewProjection",
            Uniform::SceneDepth => "sceneDepth",
            Uniform::DiffuseTexture => "diffuseTexture",
            Uniform::NormalTexture => "normalTexture",
            Uniform::InvViewProj => "invViewProj",
            Uniform::InvWorldDecal => "invWorldDecal",
            Uniform::Resolution => "resolution",
            Uniform::Color => "color",
            Uniform::LayerIndex => "layerIndex",
            Uniform::DecalMask => "decalMask",
            Uniform::ScreenTexture => "screenTexture",
            Uniform::InverseScreenSize => "inverseScreenSize",
        }
    }
}

/// The shapes that the passes draw with.
#[derive(Clone, Copy, Debug, PartialEq, Eq, Structural)]
pub enum Shape {
    /// The cube with sides of length one around the origin.
    UnitCube,
    /// The square with sides of length one in the plane of x and y.
    UnitQuad,
    /// No triangles yet: a buffer for the triangles of the user interface,
    /// with position, texture coordinates and colour for each vertex.
    InterfaceTriangles,
    /// No triangles yet: a buffer for geometry that only clips, with a
    /// position for each vertex.
    ClippingTriangles,
}

#[derive(Clone, Copy, Debug, PartialEq, Eq, Structural)]
pub enum BufferUsage {
    StaticDraw,
    DynamicDraw,
}

/// A point of the plane, in the host's numbers.
#[derive(Clone, Copy, Debug, PartialEq, Eq, Structural)]
pub struct Point {
    pub x: Number,
    pub y: Number,
}

impl Point {
    pub open spec fn origin_spec() -> Point {
        Point { x: Number::zero_spec(), y: Number::zero_spec() }
    }

    /// The point where both axes start.
    #[verifier::when_used_as_spec(origin_spec)]
    pub fn origin() -> (p: Point)
        ensures
            p == Point::origin_spec(),
    {
        Point { x: Number::zero(), y: Number::zero() }
    }
}

#[derive(Clone, Copy, Debug, PartialEq, Eq, Structural)]
pub struct Rect {
    pub x: i32,
    pub y: i32,
    pub w: i32,
    pub h: i32,
}

#[derive(Clone, Copy, Debug, PartialEq, Eq, Structural)]
pub struct Color {
    pub r: u8,
    pub g: u8,
    pub b: u8,
    pub a: u8,
}

#[derive(Clone, Copy, Debug, PartialEq, Eq, Structural)]
pub struct ScissorBox {
    pub x: i32,
    pub y: i32,
    pub width: i32,
    pub height: i32,
}

#[derive(Clone, Copy, Debug, PartialEq, Eq, Structural)]
pub enum CompareFunc {
    Never,
    Less,
    Equal,
    LessOrEqual,
    Greater,
    NotEqual,
    GreaterOrEqual,
    Always,
}

#[derive(Clone, Copy, Debug, PartialEq, Eq, Structural)]
pub struct StencilFunc {
    pub func: CompareFunc,
    pub ref_value: u32,
    pub mask: u32,
}

#[derive(Clone, Copy, Debug, PartialEq, Eq, Structural)]
pub enum StencilAction {
    Keep,
    Zero,
    Replace,
    Incr,
    Decr,
}

#[derive(Clone, Copy, Debug, PartialEq, Eq, Structural)]
pub struct StencilOp {
    pub fail: StencilAction,
    pub zfail: StencilAction,
    pub zpass: StencilAction,
    pub write_mask: u32,
}

#[derive(Clone, Copy, Debug, PartialEq, Eq, Structural)]
pub enum BlendFactor {
    Zero,
    One,
    SrcAlpha,
    OneMinusSrcAlpha,
}

#[derive(Clone, Copy, Debug, PartialEq, Eq, Structural)]
pub struct BlendFunc {
    pub sfactor: BlendFactor,
    pub dfactor: BlendFactor,
}

/// How a draw treats what is in the frame buffer.
#[derive(Clone, Copy, Debug, PartialEq, Eq, Structural)]
pub struct DrawParameters {
    pub cull_back_faces: bool,
    /// Whether the draw writes colour.
    pub color_write: bool,
    pub depth_write: bool,
    pub stencil_test: Option<StencilFunc>,
    pub depth_test: Option<CompareFunc>,
    pub blend: Option<BlendFunc>,
    pub stencil_op: StencilOp,
    pub scissor_box: Option<ScissorBox>,
}

impl StencilFunc {
    /// The test that every pixel passes.
    pub open spec fn always() -> StencilFunc {
        StencilFunc { func: CompareFunc::Always, ref_value: 0, mask: 0xFFFF_FFFF }
    }
}

impl StencilOp {
    /// The operation that leaves the stencil as it is.
    pub open spec fn keep() -> StencilOp {
        StencilOp {
            fail: StencilAction::Keep,
            zfail: StencilAction::Keep,
            zpass: StencilAction::Keep,
            write_mask: 0xFFFF_FFFF,
        }
    }

    /// The operation that leaves the stencil as it is.
    #[verifier::when_used_as_spec(keep)]
    pub fn default() -> (op: StencilOp)
        ensures
            op == StencilOp::keep(),
    {
        StencilOp {
            fail: StencilAction::Keep,
            zfail: StencilAction::Keep,
            zpass: StencilAction::Keep,
            write_mask: 0xFFFF_FFFF,
        }
    }
}

impl DrawParameters {
    /// A draw that writes colour over what is there, without tests, without
    /// blending, and without a scissor.
    pub open spec fn plain() -> DrawParameters {
        DrawParameters {
            cull_back_faces: false,
            color_write: true,
            depth_write: false,
            stencil_test: None,
            depth_test: None,
            blend: None,
            stencil_op: StencilOp::keep(),
            scissor_box: None,
        }
    }

    /// A draw that writes colour over what is there, without tests, without
    /// blending, and without a scissor.
    #[verifier::when_used_as_spec(plain)]
    pub fn overwrite() -> (p: DrawParameters)
        ensures
            p == DrawParameters::plain(),
    {
        DrawParameters {
            cull_back_faces: false,
            color_write: true,
            depth_write: false,
            stencil_test: None,
            depth_test: None,
            blend: None,
            stencil_op: StencilOp::default(),
            scissor_box: None,
        }
    }

    /// The blending of a source over what is there, by the source's alpha.
    pub open spec fn alpha() -> BlendFunc {
        BlendFunc { sfactor: BlendFactor::SrcAlpha, dfactor: BlendFactor::OneMinusSrcAlpha }
    }

    /// The blending of a source over what is there, by the source's alpha.
    #[verifier::when_used_as_spec(alpha)]
    pub fn alpha_blend() -> (f: BlendFunc)
        ensures
            f == DrawParameters::alpha(),
    {
        BlendFunc { sfactor: BlendFactor::SrcAlpha, dfactor: BlendFactor::OneMinusSrcAlpha }
    }
}

/// Which triangles of a buffer a draw takes.
#[derive(Clone, Copy, Debug, PartialEq, Eq, Structural)]
pub enum ElementRange {
    Full,
    Specific { offset: usize, count: usize },
}

/// Where a texture comes from when a draw binds it.
#[derive(Clone, Copy, Debug, PartialEq, Eq, Structural)]
pub enum TextureSource {
    /// A texture of the G-buffer or of another pass.
    Gpu(GpuTexture),
    /// The texture that the host keeps for a resource of the scene; where it
    /// has none, the stand-in.
    Resource { resource: u64, stand_in: StandIn },
    /// The stand-in itself.
    StandIn(StandIn),
    /// A page of the atlas of a font, which the host brings to the GPU when
    /// it is new or has changed.
    FontPage { font: u64, height: Number, page_index: usize },
}

/// The textures that stand in where there is no other.
#[derive(Clone, Copy, Debug, PartialEq, Eq, Structural)]
pub enum StandIn {
    White,
    Black,
    Normal,
    Volume,
}

/// What a draw hands to an input of its program. Matrices and vectors are
/// the host's to compute; a request names them by what they are made of.
#[derive(Clone, Copy, Debug, PartialEq, Eq, Structural)]
pub enum UniformValue {
    /// The matrix of the camera's view and projection, times the transform
    /// of an object of the scene.
    WorldViewProjection { object: Handle },
    /// The inverse of the matrix of the camera's view and projection, or the
    /// identity where there is none.
    InverseViewProjection,
    /// The inverse of the transform of an object of the scene, or the
    /// identity where there is none.
    InverseWorld { object: Handle },
    /// The matrix that lays the unit square over a viewport of the given
    /// size, seen straight on.
    Frame { width: i32, height: i32 },
    /// One over the width and one over the height.
    InverseSize { width: i32, height: i32 },
    /// Width and height.
    Size { width: i32, height: i32 },
    /// The projection that maps a frame of the given size, with its origin
    /// at the top left, straight onto the screen.
    Ortho { width: Number, height: Number },
    Texture(TextureSource),
    Unsigned(u32),
    /// A colour, in linear space.
    LinearColor(Color),
}

/// A request to the GPU.
#[derive(Clone, Copy, Debug, PartialEq, Eq, Structural)]
pub enum GpuCommand {
    CreateTexture {
        texture: GpuTexture,
        width: usize,
        height: usize,
        pixel_kind: PixelKind,
        min_filter: Filter,
        mag_filter: Filter,
        mip_count: usize,
    },
    SetWrap { texture: GpuTexture, coordinate: Coordinate, wrap: WrapMode },
    CreateFrameBuffer { frame_buffer: GpuFrameBuffer },
    Attach { frame_buffer: GpuFrameBuffer, attachment: Attachment },
    CreateProgram { program: GpuProgram, shader: Shader },
    LocateUniform { location: UniformLocation, program: GpuProgram, uniform: Uniform },
    CreateGeometry { geometry: GeometryBuffer, shape: Shape, usage: BufferUsage },
    CreateRenderPasses { passes: RenderPassContainer, shader: Shader },
    CreateOcclusionTester { tester: OcclusionTester, width: usize, height: usize, tile_size: usize },
    Clear {
        frame_buffer: GpuFrameBuffer,
        viewport: Rect,
        color: Option<Color>,
        /// Whether depth is set back to the far end.
        depth: bool,
        stencil: Option<i32>,
    },
    /// Brings in what the visibility test before has found out.
    QueryVisibility { tester: OcclusionTester },
    /// Draws one object of a bundle in the pass that fills the G-buffer.
    RenderInstance {
        bundle: u64,
        instance: usize,
        node: Handle,
        frame_buffer: GpuFrameBuffer,
        viewport: Rect,
        use_parallax_mapping: bool,
    },
    /// Puts an object of the scene to the visibility test that follows.
    TestVisibility { tester: OcclusionTester, node: Handle },
    /// Tests, against the depth in the frame buffer, which of the objects
    /// put to the test can be seen.
    RunVisibilityTest {
        tester: OcclusionTester,
        frame_buffer: GpuFrameBuffer,
        unit_quad: GeometryBuffer,
    },
    /// Brings vertices and triangles of the user interface to the GPU.
    UploadInterface { geometry: GeometryBuffer },
    /// Brings the clipping geometry of one drawing command to the GPU.
    UploadClipping { geometry: GeometryBuffer, command: usize },
    /// One stop of the gradient of the drawing command that follows.
    GradientStop { index: usize, stop: Number, color: Color },
    /// Draws the triangles of one drawing command of the user interface.
    RunUiPass {
        passes: RenderPassContainer,
        frame_buffer: GpuFrameBuffer,
        geometry: GeometryBuffer,
        viewport: Rect,
        /// The place of the drawing command, whose bounds and opacity the
        /// host hands to the program.
        command: usize,
        texture: TextureSource,
        is_font: bool,
        solid_color: Color,
        brush_type: i32,
        gradient_point_count: i32,
        gradient_origin: Point,
        gradient_end: Point,
        frame_width: Number,
        frame_height: Number,
        range: ElementRange,
        params: DrawParameters,
    },
    Bind { location: UniformLocation, value: UniformValue },
    /// Draws with what was bound since the draw before.
    Draw {
        frame_buffer: GpuFrameBuffer,
        geometry: GeometryBuffer,
        viewport: Rect,
        program: GpuProgram,
        params: DrawParameters,
        range: ElementRange,
    },
}

/// The graphics server: it names resources and records requests.
pub struct GraphicsServer {
    next_id: u64,
    commands: Vec<GpuCommand>,
}

impl GraphicsServer {
    /// The requests so far, oldest first.
    pub closed spec fn recorded(&self) -> Seq<GpuCommand> {
        self.commands@
    }

    /// The name that the next resource gets.
    pub closed spec fn next(&self) -> u64 {
        self.next_id
    }

    /// Whether the server has names left for `n` more resources.
    pub open spec fn has_names(&self, n: nat) -> bool {
        self.next() + n <= u64::MAX
    }

    /// A server that has recorded nothing and named nothing.
    pub fn new() -> (server: GraphicsServer)
        ensures
            server.recorded() == Seq::<GpuCommand>::empty(),
            server.next() == 1,
    {
        GraphicsServer { next_id: 1, commands: Vec::new() }
    }

    /// For how many more resources the server has names.
    pub fn names_left(&self) -> (n: u64)
        ensures
            n == u64::MAX - self.next(),
            forall|k: nat| self.has_names(k) <==> k <= n,
    {
        u64::MAX - self.next_id
    }

    /// A new name.
    fn name(&mut self) -> (id: u64)
        requires
            old(self).has_names(1),
        ensures
            id == old(self).next(),
            final(self).next() == old(self).next() + 1,
            final(self).recorded() == old(self).recorded(),
    {
        let id = self.next_id;
        self.next_id = self.next_id + 1;
        id
    }

    /// The requests are no more than a machine can count.
    pub proof fn lemma_recorded_fits(&self)
        ensures
            self.recorded().len() <= usize::MAX,
    {
        assert(self.commands@.len() == self.commands.len());
    }

    /// Records a request.
    pub fn record(&mut self, command: GpuCommand)
        ensures
            final(self).next() == old(self).next(),
            final(self).recorded() == old(self).recorded().push(command),
    {
        self.commands.push(command);
    }

    /// Takes the recorded requests out, oldest first, and leaves none.
    pub fn take_recorded(&mut self) -> (commands: Vec<GpuCommand>)
        ensures
            commands@ == old(self).recorded(),
            final(self).recorded() == Seq::<GpuCommand>::empty(),
            final(self).next() == old(self).next(),
    {
        let mut out: Vec<GpuCommand> = Vec::new();
        std::mem::swap(&mut out, &mut self.commands);
        out
    }

    /// Whether `run` has carried out the first `n` of `commands`, each with
    /// success.
    pub open spec fn done<E, F: Fn(GpuCommand) -> Result<(), E>>(
        commands: Seq<GpuCommand>,
        run: F,
        n: int,
    ) -> bool {
        forall|i: int| 0 <= i < n ==> run.ensures((#[trigger] commands[i],), Ok(()))
    }

    /// Takes the recorded requests out and has `run` carry them out, oldest
    /// first, as far as they succeed. Where all succeed, the result is their
    /// number. Where one fails, it is the first that `run` fails on; the
    /// result is its place and its error, and `run` is not called on any
    /// later request.
    pub fn carry_out<E, F: Fn(GpuCommand) -> Result<(), E>>(&mut self, run: F) -> (outcome: Result<
        usize,
        (usize, E),
    >)
        requires
            forall|c: GpuCommand| #[trigger] run.requires((c,)),
        ensures
            final(self).recorded() == Seq::<GpuCommand>::empty(),
            final(self).next() == old(self).next(),
            match outcome {
                Ok(n) => n == old(self).recorded().len() && Self::done(
                    old(self).recorded(),
                    run,
                    n as int,
                ),
                Err((k, e)) => k < old(self).recorded().len() && Self::done(
                    old(self).recorded(),
                    run,
                    k as int,
                ) && run.ensures((old(self).recorded()[k as int],), Err(e)),
            },
    {
        let commands = self.take_recorded();
        let mut i: usize = 0;
        while i < commands.len()
            invariant
                0 <= i <= commands@.len(),
                commands@ == old(self).recorded(),
                self.recorded() == Seq::<GpuCommand>::empty(),
                self.next() == old(self).next(),
                forall|c: GpuCommand| #[trigger] run.requires((c,)),
                Self::done(commands@, run, i as int),
            decreases commands@.len() - i,
        {
            let command = commands[i];
            let outcome = run(command);
            match outcome {
                Ok(done) => {
                    proof {
                        assert(done == ());
                        assert(run.ensures((commands@[i as int],), Ok(())));
                    }
                },
                Err(e) => {
                    return Err((i, e));
                },
            }
            i += 1;
        }
        Ok(i)
    }

    /// The requests that make a rectangular texture without mip levels that
    /// is read at the nearest texel and not beyond its edges.
    pub open spec fn target_requests(
        texture: GpuTexture,
        width: usize,
        height: usize,
        pixel_kind: PixelKind,
    ) -> Seq<GpuCommand> {
        seq![
            GpuCommand::CreateTexture {
                texture,
                width,
                height,
                pixel_kind,
                min_filter: Filter::Nearest,
                mag_filter: Filter::Nearest,
                mip_count: 1,
            },
            GpuCommand::SetWrap { texture, coordinate: Coordinate::S, wrap: WrapMode::ClampToEdge },
            GpuCommand::SetWrap { texture, coordinate: Coordinate::T, wrap: WrapMode::ClampToEdge },
        ]
    }

    /// Asks for a texture to render into: rectangular, without mip levels,
    /// read at the nearest texel and not beyond its edges.
    pub fn create_target(&mut self, width: usize, height: usize, pixel_kind: PixelKind) -> (texture:
        GpuTexture)
        requires
            old(self).has_names(1),
        ensures
            texture.id == old(self).next(),
            final(self).next() == old(self).next() + 1,
            final(self).recorded() == old(self).recorded() + Self::target_requests(
                texture,
                width,
                height,
                pixel_kind,
            ),
    {
        let texture = GpuTexture { id: self.name() };
        self.record(
            GpuCommand::CreateTexture {
                texture,
                width,
                height,
                pixel_kind,
                min_filter: Filter::Nearest,
                mag_filter: Filter::Nearest,
                mip_count: 1,
            },
        );
        self.record(
            GpuCommand::SetWrap { texture, coordinate: Coordinate::S, wrap: WrapMode::ClampToEdge },
        );
        self.record(
            GpuCommand::SetWrap { texture, coordinate: Coordinate::T, wrap: WrapMode::ClampToEdge },
        );
        proof {
            assert(self.recorded() =~= old(self).recorded() + Self::target_requests(
                texture,
                width,
                height,
                pixel_kind,
            ));
        }
        texture
    }

    /// Asks for a program.
    pub fn create_program(&mut self, shader: Shader) -> (program: GpuProgram)
        requires
            old(self).has_names(1),
        ensures
            program.id == old(self).next(),
            final(self).next() == old(self).next() + 1,
            final(self).recorded() == old(self).recorded().push(
                GpuCommand::CreateProgram { program, shader },
            ),
    {
        let program = GpuProgram { id: self.name() };
        self.record(GpuCommand::CreateProgram { program, shader });
        program
    }

    /// Asks where an input of a program is.
    pub fn uniform_location(&mut self, program: GpuProgram, uniform: Uniform) -> (location:
        UniformLocation)
        requires
            old(self).has_names(1),
        ensures
            location.id == old(self).next(),
            final(self).next() == old(self).next() + 1,
            final(self).recorded() == old(self).recorded().push(
                GpuCommand::LocateUniform { location, program, uniform },
            ),
    {
        let location = UniformLocation { id: self.name() };
        self.record(GpuCommand::LocateUniform { location, program, uniform });
        location
    }

    /// Asks for a tester of visibility for a frame of the given size, in
    /// tiles of the given size.
    pub fn create_occlusion_tester(&mut self, width: usize, height: usize, tile_size: usize) -> (tester:
        OcclusionTester)
        requires
            old(self).has_names(1),
        ensures
            tester.id == old(self).next(),
            final(self).next() == old(self).next() + 1,
            final(self).recorded() == old(self).recorded().push(
                GpuCommand::CreateOcclusionTester { tester, width, height, tile_size },
            ),
    {
        let tester = OcclusionTester { id: self.name() };
        self.record(GpuCommand::CreateOcclusionTester { tester, width, height, tile_size });
        tester
    }

    /// Asks for the passes of a shader.
    pub fn create_render_passes(&mut self, shader: Shader) -> (passes: RenderPassContainer)
        requires
            old(self).has_names(1),
        ensures
            passes.id == old(self).next(),
            final(self).next() == old(self).next() + 1,
            final(self).recorded() == old(self).recorded().push(
                GpuCommand::CreateRenderPasses { passes, shader },
            ),
    {
        let passes = RenderPassContainer { id: self.name() };
        self.record(GpuCommand::CreateRenderPasses { passes, shader });
        passes
    }

    /// Asks for a buffer of geometry.
    pub fn create_geometry(&mut self, shape: Shape, usage: BufferUsage) -> (geometry: GeometryBuffer)
        requires
            old(self).has_names(1),
        ensures
            geometry.id == old(self).next(),
            final(self).next() == old(self).next() + 1,
            final(self).recorded() == old(self).recorded().push(
                GpuCommand::CreateGeometry { geometry, shape, usage },
            ),
    {
        let geometry = GeometryBuffer { id: self.name() };
        self.record(GpuCommand::CreateGeometry { geometry, shape, usage });
        geometry
    }
}

/// The requests that attach the first `n` of `attachments` to a frame
/// buffer.
pub open spec fn attach_requests(
    frame_buffer: GpuFrameBuffer,
    attachments: Seq<Attachment>,
    n: nat,
) -> Seq<GpuCommand> {
    Seq::new(n, |i: int| GpuCommand::Attach { frame_buffer, attachment: attachments[i] })
}

/// Textures to render into, together.
pub struct FrameBuffer {
    pub gpu: GpuFrameBuffer,
    pub depth_attachment: Option<Attachment>,
    pub color_attachments: Vec<Attachment>,
}

impl FrameBuffer {
    pub open spec fn depth(&self) -> Option<Attachment> {
        self.depth_attachment
    }

    pub open spec fn colors(&self) -> Seq<Attachment> {
        self.color_attachments@
    }

    /// The requests that make a frame buffer of the given attachments.
    pub open spec fn requests(
        frame_buffer: GpuFrameBuffer,
        depth: Option<Attachment>,
        colors: Seq<Attachment>,
    ) -> Seq<GpuCommand> {
        seq![GpuCommand::CreateFrameBuffer { frame_buffer }] + (match depth {
            Some(attachment) => seq![GpuCommand::Attach { frame_buffer, attachment }],
            None => Seq::<GpuCommand>::empty(),
        }) + attach_requests(frame_buffer, colors, colors.len())
    }

    /// Asks for a frame buffer of the given attachments.
    pub fn new(
        server: &mut GraphicsServer,
        depth_attachment: Option<Attachment>,
        color_attachments: Vec<Attachment>,
    ) -> (fb: FrameBuffer)
        requires
            old(server).has_names(1),
        ensures
            fb.gpu.id == old(server).next(),
            fb.depth() == depth_attachment,
            fb.colors() == color_attachments@,
            final(server).next() == old(server).next() + 1,
            final(server).recorded() == old(server).recorded() + Self::requests(
                fb.gpu,
                depth_attachment,
                color_attachments@,
            ),
    {
        let gpu = GpuFrameBuffer { id: server.name() };
        server.record(GpuCommand::CreateFrameBuffer { frame_buffer: gpu });
        if let Some(attachment) = depth_attachment {
            server.record(GpuCommand::Attach { frame_buffer: gpu, attachment });
        }
        let ghost head = server.recorded();
        let mut i: usize = 0;
        proof {
            assert(head + attach_requests(gpu, color_attachments@, 0) =~= head);
        }
        while i < color_attachments.len()
            invariant
                0 <= i <= color_attachments@.len(),
                server.next() == old(server).next() + 1,
                server.recorded() == head + attach_requests(gpu, color_attachments@, i as nat),
            decreases color_attachments@.len() - i,
        {
            server.record(GpuCommand::Attach { frame_buffer: gpu, attachment: color_attachments[i] });
            proof {
                assert(attach_requests(gpu, color_attachments@, (i + 1) as nat)
                    =~= attach_requests(gpu, color_attachments@, i as nat).push(
                    GpuCommand::Attach { frame_buffer: gpu, attachment: color_attachments@[i as int] },
                ));
            }
            i += 1;
        }
        proof {
            assert(server.recorded() =~= old(server).recorded() + Self::requests(
                gpu,
                depth_attachment,
                color_attachments@,
            ));
        }
        FrameBuffer { gpu, depth_attachment, color_attachments }
    }

    pub fn depth_attachment(&self) -> (a: Option<&Attachment>)
        ensures
            match self.depth() {
                Some(d) => a == Some(&d),
                None => a is None,
            },
    {
        self.depth_attachment.as_ref()
    }

    pub fn color_attachments(&self) -> (a: &Vec<Attachment>)
        ensures
            a@ == self.colors(),
    {
        &self.color_attachments
    }

    /// The request that clears the frame buffer.
    pub fn clear(
        &self,
        server: &mut GraphicsServer,
        viewport: Rect,
        color: Option<Color>,
        depth: bool,
        stencil: Option<i32>,
    )
        ensures
            final(server).next() == old(server).next(),
            final(server).recorded() == old(server).recorded().push(
                GpuCommand::Clear { frame_buffer: self.gpu, viewport, color, depth, stencil },
            ),
    {
        server.record(GpuCommand::Clear { frame_buffer: self.gpu, viewport, color, depth, stencil });
    }

    /// The request that draws into the frame buffer.
    pub fn draw(
        &self,
        server: &mut GraphicsServer,
        geometry: GeometryBuffer,
        viewport: Rect,
        program: GpuProgram,
        params: DrawParameters,
        range: ElementRange,
    )
        ensures
            final(server).next() == old(server).next(),
            final(server).recorded() == old(server).recorded().push(
                GpuCommand::Draw {
                    frame_buffer: self.gpu,
                    geometry,
                    viewport,
                    program,
                    params,
                    range,
                },
            ),
    {
        server.record(
            GpuCommand::Draw { frame_buffer: self.gpu, geometry, viewport, program, params, range },
        );
    }
}

/// What a pass has asked to be drawn.
#[derive(Clone, Copy, Debug, PartialEq, Eq, Structural)]
pub struct RenderPassStatistics {
    /// The number of draws that count for the pass.
    pub draw_calls: usize,
}

} // verus!
