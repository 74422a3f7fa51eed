//! The G-buffer: the textures that the deferred pass fills, and the pass.
//!
//! Layout, by colour attachment:
//!
//! 0. diffuse colour
//! 1. normal
//! 2. ambient light and emission
//! 3. metallic, roughness, ambient occlusion
//! 4. decal mask
//!
//! with depth and stencil beside them. Decals are drawn into a second frame
//! buffer that shares the textures of diffuse colour and normal.

use crate::collections::{handles_contains, handles_insert, handles_items, handles_new, handles_of};
use crate::handle::Handle;
use crate::renderer::decal::DecalShader;
use crate::renderer::framework::{
    Attachment, AttachmentKind, BufferUsage, Color, DrawParameters, ElementRange, FrameBuffer,
    GeometryBuffer, GpuCommand, GpuFrameBuffer, GpuTexture, GraphicsServer, OcclusionTester,
    PixelKind, Rect, RenderPassStatistics, Shape, StandIn, StencilOp, TextureSource,
    UniformValue,
};
use fxhash::FxHashSet;
use vstd::prelude::*;

verus! {

#[derive(Clone, Copy, Debug, PartialEq, Eq, Structural)]
pub enum RenderPath {
    Deferred,
    Forward,
}

/// One object to draw.
#[derive(Clone, Copy, Debug, PartialEq, Eq, Structural)]
pub struct SurfaceInstanceData {
    pub node_handle: Handle,
}

/// Objects that are drawn alike.
pub struct RenderDataBundle {
    pub id: u64,
    pub render_path: RenderPath,
    pub instances: Vec<SurfaceInstanceData>,
}

pub struct RenderDataBundleStorage {
    pub bundles: Vec<RenderDataBundle>,
}

pub struct QualitySettings {
    pub use_occlusion_culling: bool,
    pub use_parallax_mapping: bool,
}

/// A decal of the scene.
#[derive(Clone, Copy, Debug, PartialEq, Eq, Structural)]
pub struct Decal {
    pub node: Handle,
    pub diffuse_texture: Option<u64>,
    pub normal_texture: Option<u64>,
    pub layer: u8,
    pub color: Color,
}

/// What the visibility test has found for the place where the camera is:
/// the objects that cannot be seen from there.
pub struct VisibilityCell {
    pub invisible: FxHashSet<(u32, u32)>,
}

impl VisibilityCell {
    pub open spec fn sees(&self, node: Handle) -> bool {
        !handles_of(self.invisible).contains((node.index, node.generation))
    }

    /// Whether the object can be seen. An object that was never tested can.
    pub fn is_visible(&self, node: Handle) -> (b: bool)
        ensures
            b == self.sees(node),
    {
        !handles_contains(&self.invisible, (node.index, node.generation))
    }
}

/// What the pass draws, and how.
pub struct GBufferRenderContext<'a> {
    pub bundle_storage: &'a RenderDataBundleStorage,
    pub quality_settings: &'a QualitySettings,
    /// The decals of the scene, in the order of the scene graph.
    pub decals: &'a Vec<Decal>,
    /// What is known of visibility at the place of the camera, if anything.
    pub grid_cell: Option<&'a VisibilityCell>,
    pub unit_quad: GeometryBuffer,
}

pub struct GBuffer {
    pub framebuffer: FrameBuffer,
    pub decal_framebuffer: FrameBuffer,
    pub width: i32,
    pub height: i32,
    pub cube: GeometryBuffer,
    pub decal_shader: DecalShader,
    pub occlusion_tester: OcclusionTester,
}

/// The texture with the name `first + k`.
pub open spec fn texture(first: u64, k: u64) -> GpuTexture {
    GpuTexture { id: (first + k) as u64 }
}

/// A colour attachment.
pub open spec fn color(texture: GpuTexture) -> Attachment {
    Attachment { kind: AttachmentKind::Color, texture }
}

/// Whether the pass draws the object, given what is known of visibility:
/// always where objects out of sight are not left out or nothing is known,
/// and else where the object can be seen.
pub open spec fn passes(settings: &QualitySettings, cell: Option<&VisibilityCell>, node: Handle) -> bool {
    !settings.use_occlusion_culling || match cell {
        Some(c) => c.sees(node),
        None => true,
    }
}

/// The objects of the first `n` bundles, and of the first `m` instances of
/// the bundle after them.
pub open spec fn nodes_upto(bundles: Seq<RenderDataBundle>, n: int, m: int) -> Set<(u32, u32)> {
    Set::new(
        |k: (u32, u32)|
            exists|i: int, j: int|
                0 <= i < bundles.len() && 0 <= j < bundles[i].instances@.len() && (i < n || (i == n
                    && j < m)) && #[trigger] bundles[i].instances@[j].node_handle == (Handle {
                    index: k.0,
                    generation: k.1,
                }),
    )
}

impl GBuffer {
    /// The frame buffer has depth and the five colour attachments.
    pub open spec fn wf(&self) -> bool {
        &&& self.framebuffer.depth() is Some
        &&& self.framebuffer.colors().len() == 5
    }

    /// The colour attachments of the G-buffer, where its textures have the
    /// names from `first` on.
    pub open spec fn attachments(first: u64) -> Seq<Attachment> {
        seq![
            color(texture(first, 1)),
            color(texture(first, 2)),
            color(texture(first, 3)),
            color(texture(first, 5)),
            color(texture(first, 4)),
        ]
    }

    /// The attachment of depth and stencil.
    pub open spec fn depth_stencil(first: u64) -> Attachment {
        Attachment { kind: AttachmentKind::DepthStencil, texture: texture(first, 0) }
    }

    /// The colour attachments of the frame buffer for decals.
    pub open spec fn decal_attachments(first: u64) -> Seq<Attachment> {
        seq![color(texture(first, 1)), color(texture(first, 2))]
    }

    /// What making a G-buffer asks of the server, where `first` is the
    /// first name that the server has left: six textures of the size of
    /// the frame, for depth and stencil, diffuse colour, normal, ambient
    /// light, decal mask and material; the two frame buffers; the program
    /// for decals; a cube; and a tester of visibility with tiles of 16.
    pub open spec fn requests(first: u64, width: usize, height: usize) -> Seq<GpuCommand> {
        GraphicsServer::target_requests(texture(first, 0), width, height, PixelKind::D24S8)
            + GraphicsServer::target_requests(texture(first, 1), width, height, PixelKind::RGBA8)
            + GraphicsServer::target_requests(texture(first, 2), width, height, PixelKind::RGBA8)
            + GraphicsServer::target_requests(texture(first, 3), width, height, PixelKind::RGBA16F)
            + GraphicsServer::target_requests(texture(first, 4), width, height, PixelKind::R8UI)
            + GraphicsServer::target_requests(texture(first, 5), width, height, PixelKind::RGBA8)
            + FrameBuffer::requests(
            GpuFrameBuffer { id: (first + 6) as u64 },
            Some(Self::depth_stencil(first)),
            Self::attachments(first),
        ) + FrameBuffer::requests(
            GpuFrameBuffer { id: (first + 7) as u64 },
            None,
            Self::decal_attachments(first),
        ) + DecalShader::requests((first + 8) as u64) + seq![
            GpuCommand::CreateGeometry {
                geometry: GeometryBuffer { id: (first + 19) as u64 },
                shape: Shape::UnitCube,
                usage: BufferUsage::StaticDraw,
            },
            GpuCommand::CreateOcclusionTester {
                tester: OcclusionTester { id: (first + 20) as u64 },
                width,
                height,
                tile_size: 16,
            },
        ]
    }

    /// Asks the server for a G-buffer for frames of the given size.
    pub fn new(server: &mut GraphicsServer, width: usize, height: usize) -> (gbuffer: GBuffer)
        requires
            old(server).has_names(21),
            width <= i32::MAX,
            height <= i32::MAX,
        ensures
            gbuffer.wf(),
            gbuffer.width == width,
            gbuffer.height == height,
            gbuffer.framebuffer.gpu.id == old(server).next() + 6,
            gbuffer.framebuffer.depth() == Some(Self::depth_stencil(old(server).next())),
            gbuffer.framebuffer.colors() == Self::attachments(old(server).next()),
            gbuffer.decal_framebuffer.gpu.id == old(server).next() + 7,
            gbuffer.decal_framebuffer.depth() is None,
            gbuffer.decal_framebuffer.colors() == Self::decal_attachments(old(server).next()),
            gbuffer.decal_shader == DecalShader::named((old(server).next() + 8) as u64),
            gbuffer.cube.id == old(server).next() + 19,
            gbuffer.occlusion_tester.id == old(server).next() + 20,
            final(server).next() == old(server).next() + 21,
            final(server).recorded() == old(server).recorded() + Self::requests(
                old(server).next(),
                width,
                height,
            ),
    {
        let ghost first = server.next();
        let ghost start = server.recorded();
        let depth_stencil = server.create_target(width, height, PixelKind::D24S8);
        let diffuse_texture = server.create_target(width, height, PixelKind::RGBA8);
        let normal_texture = server.create_target(width, height, PixelKind::RGBA8);
        let ambient_texture = server.create_target(width, height, PixelKind::RGBA16F);
        let decal_mask_texture = server.create_target(width, height, PixelKind::R8UI);
        let material_texture = server.create_target(width, height, PixelKind::RGBA8);
        let ghost textures = server.recorded();
        let mut attachments: Vec<Attachment> = Vec::new();
        attachments.push(Attachment { kind: AttachmentKind::Color, texture: diffuse_texture });
        attachments.push(Attachment { kind: AttachmentKind::Color, texture: normal_texture });
        attachments.push(Attachment { kind: AttachmentKind::Color, texture: ambient_texture });
        attachments.push(Attachment { kind: AttachmentKind::Color, texture: material_texture });
        attachments.push(Attachment { kind: AttachmentKind::Color, texture: decal_mask_texture });
        proof {
            assert(attachments@ =~= Self::attachments(first));
        }
        let framebuffer = FrameBuffer::new(
            server,
            Some(Attachment { kind: AttachmentKind::DepthStencil, texture: depth_stencil }),
            attachments,
        );
        let mut decal_attachments: Vec<Attachment> = Vec::new();
        decal_attachments.push(Attachment { kind: AttachmentKind::Color, texture: diffuse_texture });
        decal_attachments.push(Attachment { kind: AttachmentKind::Color, texture: normal_texture });
        proof {
            assert(decal_attachments@ =~= Self::decal_attachments(first));
        }
        let decal_framebuffer = FrameBuffer::new(server, None, decal_attachments);
        let ghost buffers = server.recorded();
        let decal_shader = DecalShader::new(server);
        let cube = server.create_geometry(Shape::UnitCube, BufferUsage::StaticDraw);
        let occlusion_tester = server.create_occlusion_tester(width, height, 16);
        proof {
            assert(server.recorded() =~= start + Self::requests(first, width, height));
        }
        GBuffer {
            framebuffer,
            width: width as i32,
            height: height as i32,
            decal_shader,
            cube,
            decal_framebuffer,
            occlusion_tester,
        }
    }

    pub fn framebuffer(&self) -> (fb: &FrameBuffer)
        ensures
            *fb == self.framebuffer,
    {
        &self.framebuffer
    }

    /// The texture of depth and stencil.
    pub fn depth(&self) -> (t: GpuTexture)
        requires
            self.wf(),
        ensures
            Some(t) == self.depth_spec(),
    {
        self.framebuffer.depth_attachment().unwrap().texture
    }

    pub open spec fn depth_spec(&self) -> Option<GpuTexture> {
        match self.framebuffer.depth() {
            Some(a) => Some(a.texture),
            None => None,
        }
    }

    /// The texture of diffuse colour: colour attachment 0.
    pub fn diffuse_texture(&self) -> (t: GpuTexture)
        requires
            self.wf(),
        ensures
            t == self.framebuffer.colors()[0].texture,
    {
        self.framebuffer.color_attachments()[0].texture
    }

    /// The texture of normals: colour attachment 1.
    pub fn normal_texture(&self) -> (t: GpuTexture)
        requires
            self.wf(),
        ensures
            t == self.framebuffer.colors()[1].texture,
    {
        self.framebuffer.color_attachments()[1].texture
    }

    /// The texture of ambient light: colour attachment 2.
    pub fn ambient_texture(&self) -> (t: GpuTexture)
        requires
            self.wf(),
        ensures
            t == self.framebuffer.colors()[2].texture,
    {
        self.framebuffer.color_attachments()[2].texture
    }

    /// The texture of the material: colour attachment 3.
    pub fn material_texture(&self) -> (t: GpuTexture)
        requires
            self.wf(),
        ensures
            t == self.framebuffer.colors()[3].texture,
    {
        self.framebuffer.color_attachments()[3].texture
    }

    /// The texture of the decal mask: colour attachment 4.
    pub fn decal_mask_texture(&self) -> (t: GpuTexture)
        requires
            self.wf(),
        ensures
            t == self.framebuffer.colors()[4].texture,
    {
        self.framebuffer.color_attachments()[4].texture
    }

    /// The whole frame.
    pub open spec fn viewport(&self) -> Rect {
        Rect { x: 0, y: 0, w: self.width, h: self.height }
    }

    /// The draws of the first `m` objects of a bundle: one for each object
    /// that passes.
    pub open spec fn instance_requests(
        &self,
        bundle: RenderDataBundle,
        settings: &QualitySettings,
        cell: Option<&VisibilityCell>,
        m: nat,
    ) -> Seq<GpuCommand>
        decreases m,
    {
        if m == 0 {
            Seq::<GpuCommand>::empty()
        } else {
            let j = (m - 1) as int;
            let rest = self.instance_requests(bundle, settings, cell, (m - 1) as nat);
            let node = bundle.instances@[j].node_handle;
            if passes(settings, cell, node) {
                rest.push(
                    GpuCommand::RenderInstance {
                        bundle: bundle.id,
                        instance: j as usize,
                        node,
                        frame_buffer: self.framebuffer.gpu,
                        viewport: self.viewport(),
                        use_parallax_mapping: settings.use_parallax_mapping,
                    },
                )
            } else {
                rest
            }
        }
    }

    /// The draws of the first `n` bundles: those of each bundle that is
    /// drawn deferred.
    pub open spec fn bundle_requests(
        &self,
        bundles: Seq<RenderDataBundle>,
        settings: &QualitySettings,
        cell: Option<&VisibilityCell>,
        n: nat,
    ) -> Seq<GpuCommand>
        decreases n,
    {
        if n == 0 {
            Seq::<GpuCommand>::empty()
        } else {
            let i = (n - 1) as int;
            let rest = self.bundle_requests(bundles, settings, cell, (n - 1) as nat);
            if bundles[i].render_path == RenderPath::Deferred {
                rest + self.instance_requests(
                    bundles[i],
                    settings,
                    cell,
                    bundles[i].instances@.len(),
                )
            } else {
                rest
            }
        }
    }

    /// The texture that a decal reads, or the stand-in where it has none.
    pub open spec fn decal_texture(resource: Option<u64>, stand_in: StandIn) -> UniformValue {
        UniformValue::Texture(
            match resource {
                Some(r) => TextureSource::Resource { resource: r, stand_in },
                None => TextureSource::StandIn(stand_in),
            },
        )
    }

    /// How a decal is drawn: blended over what is there, with no test.
    pub open spec fn decal_parameters() -> DrawParameters {
        DrawParameters { blend: Some(DrawParameters::alpha()), ..DrawParameters::plain() }
    }

    /// The draw of one decal: the inputs of the program, then the cube.
    pub open spec fn decal_draw(&self, decal: Decal) -> Seq<GpuCommand> {
        let shader = self.decal_shader;
        seq![
            GpuCommand::Bind {
                location: shader.world_view_projection,
                value: UniformValue::WorldViewProjection { object: decal.node },
            },
            GpuCommand::Bind {
                location: shader.inv_view_proj,
                value: UniformValue::InverseViewProjection,
            },
            GpuCommand::Bind {
                location: shader.inv_world_decal,
                value: UniformValue::InverseWorld { object: decal.node },
            },
            GpuCommand::Bind {
                location: shader.resolution,
                value: UniformValue::Size { width: self.width, height: self.height },
            },
            GpuCommand::Bind {
                location: shader.scene_depth,
                value: UniformValue::Texture(TextureSource::Gpu(self.depth_spec()->0)),
            },
            GpuCommand::Bind {
                location: shader.diffuse_texture,
                value: Self::decal_texture(decal.diffuse_texture, StandIn::White),
            },
            GpuCommand::Bind {
                location: shader.normal_texture,
                value: Self::decal_texture(decal.normal_texture, StandIn::Normal),
            },
            GpuCommand::Bind {
                location: shader.decal_mask,
                value: UniformValue::Texture(
                    TextureSource::Gpu(self.framebuffer.colors()[4].texture),
                ),
            },
            GpuCommand::Bind {
                location: shader.layer_index,
                value: UniformValue::Unsigned(decal.layer as u32),
            },
            GpuCommand::Bind { location: shader.color, value: UniformValue::LinearColor(decal.color) },
            GpuCommand::Draw {
                frame_buffer: self.decal_framebuffer.gpu,
                geometry: self.cube,
                viewport: self.viewport(),
                program: shader.program,
                params: Self::decal_parameters(),
                range: ElementRange::Full,
            },
        ]
    }

    /// The draws of the first `n` decals.
    pub open spec fn decal_requests(&self, decals: Seq<Decal>, n: nat) -> Seq<GpuCommand>
        decreases n,
    {
        if n == 0 {
            Seq::<GpuCommand>::empty()
        } else {
            self.decal_requests(decals, (n - 1) as nat) + self.decal_draw(decals[n - 1])
        }
    }

    /// The visibility test: each of `objects` put to it, then the test.
    pub open spec fn test_requests(&self, objects: Seq<(u32, u32)>, unit_quad: GeometryBuffer) -> Seq<
        GpuCommand,
    > {
        Seq::new(
            objects.len(),
            |k: int|
                GpuCommand::TestVisibility {
                    tester: self.occlusion_tester,
                    node: Handle { index: objects[k].0, generation: objects[k].1 },
                },
        ).push(
            GpuCommand::RunVisibilityTest {
                tester: self.occlusion_tester,
                frame_buffer: self.framebuffer.gpu,
                unit_quad,
            },
        )
    }

    /// What filling the G-buffer asks of the server.
    ///
    /// Where objects out of sight are left out, the results of the test
    /// before are brought in first. The frame buffer is cleared, to colour
    /// without any light or opacity, the far end of depth and stencil zero.
    /// The bundles that are drawn deferred are drawn, object by object, but
    /// for the objects that do not pass. Where objects out of sight are
    /// left out, every object of every bundle is put to the visibility
    /// test, in the order `objects`, and the test is run. The decals come
    /// last, in their order.
    pub open spec fn fill_requests(
        &self,
        args: &GBufferRenderContext,
        objects: Seq<(u32, u32)>,
    ) -> Seq<GpuCommand> {
        let culling = args.quality_settings.use_occlusion_culling;
        (if culling {
            seq![GpuCommand::QueryVisibility { tester: self.occlusion_tester }]
        } else {
            Seq::<GpuCommand>::empty()
        }) + seq![
            GpuCommand::Clear {
                frame_buffer: self.framebuffer.gpu,
                viewport: self.viewport(),
                color: Some(Color { r: 0, g: 0, b: 0, a: 0 }),
                depth: true,
                stencil: Some(0),
            },
        ] + self.bundle_requests(
            args.bundle_storage.bundles@,
            args.quality_settings,
            args.grid_cell,
            args.bundle_storage.bundles@.len(),
        ) + (if culling {
            self.test_requests(objects, args.unit_quad)
        } else {
            Seq::<GpuCommand>::empty()
        }) + self.decal_requests(args.decals@, args.decals@.len())
    }

    /// The number of draws that filling asks for: one for each object of a
    /// deferred bundle that passes, and one for each decal.
    pub open spec fn draws(&self, args: &GBufferRenderContext) -> nat {
        self.bundle_requests(
            args.bundle_storage.bundles@,
            args.quality_settings,
            args.grid_cell,
            args.bundle_storage.bundles@.len(),
        ).len() + args.decals@.len()
    }

    /// Records the draws of one bundle.
    fn render_bundle(
        &self,
        server: &mut GraphicsServer,
        bundle: &RenderDataBundle,
        settings: &QualitySettings,
        cell: Option<&VisibilityCell>,
    ) -> (draws: usize)
        ensures
            final(server).next() == old(server).next(),
            final(server).recorded() == old(server).recorded() + self.instance_requests(
                *bundle,
                settings,
                cell,
                bundle.instances@.len(),
            ),
            draws == self.instance_requests(*bundle, settings, cell, bundle.instances@.len()).len(),
    {
        let viewport = Rect { x: 0, y: 0, w: self.width, h: self.height };
        let mut j: usize = 0;
        let mut draws: usize = 0;
        proof {
            assert(old(server).recorded() + self.instance_requests(*bundle, settings, cell, 0)
                =~= old(server).recorded());
        }
        while j < bundle.instances.len()
            invariant
                0 <= j <= bundle.instances@.len(),
                viewport == self.viewport(),
                server.next() == old(server).next(),
                server.recorded() == old(server).recorded() + self.instance_requests(
                    *bundle,
                    settings,
                    cell,
                    j as nat,
                ),
                draws == self.instance_requests(*bundle, settings, cell, j as nat).len(),
                draws <= j,
            decreases bundle.instances@.len() - j,
        {
            let node = bundle.instances[j].node_handle;
            let visible = !settings.use_occlusion_culling || match cell {
                Some(c) => c.is_visible(node),
                None => true,
            };
            if visible {
                server.record(
                    GpuCommand::RenderInstance {
                        bundle: bundle.id,
                        instance: j,
                        node,
                        frame_buffer: self.framebuffer.gpu,
                        viewport,
                        use_parallax_mapping: settings.use_parallax_mapping,
                    },
                );
                draws += 1;
            }
            proof {
                assert(server.recorded() =~= old(server).recorded() + self.instance_requests(
                    *bundle,
                    settings,
                    cell,
                    (j + 1) as nat,
                ));
            }
            j += 1;
        }
        draws
    }

    /// Every object of every bundle, once.
    fn collect_objects(bundles: &Vec<RenderDataBundle>) -> (objects: FxHashSet<(u32, u32)>)
        ensures
            handles_of(objects) == nodes_upto(bundles@, bundles@.len() as int, 0),
    {
        let mut objects = handles_new();
        let mut i: usize = 0;
        proof {
            assert(handles_of(objects) =~= nodes_upto(bundles@, 0, 0));
        }
        while i < bundles.len()
            invariant
                0 <= i <= bundles@.len(),
                handles_of(objects) == nodes_upto(bundles@, i as int, 0),
            decreases bundles@.len() - i,
        {
            let bundle = &bundles[i];
            let mut j: usize = 0;
            while j < bundle.instances.len()
                invariant
                    0 <= i < bundles@.len(),
                    0 <= j <= bundle.instances@.len(),
                    *bundle == bundles@[i as int],
                    handles_of(objects) == nodes_upto(bundles@, i as int, j as int),
                decreases bundle.instances@.len() - j,
            {
                let node = bundle.instances[j].node_handle;
                let ghost before = handles_of(objects);
                handles_insert(&mut objects, (node.index, node.generation));
                proof {
                    let after = nodes_upto(bundles@, i as int, j + 1);
                    assert forall|k: (u32, u32)|
                        before.insert((node.index, node.generation)).contains(k)
                            == after.contains(k) by {
                        if k == (node.index, node.generation) {
                            assert(bundles@[i as int].instances@[j as int].node_handle == (Handle {
                                index: k.0,
                                generation: k.1,
                            }));
                        }
                    }
                    assert(handles_of(objects) =~= after);
                }
                j += 1;
            }
            proof {
                assert(nodes_upto(bundles@, i as int, j as int) =~= nodes_upto(
                    bundles@,
                    i + 1,
                    0,
                ));
            }
            i += 1;
        }
        objects
    }

    /// Records the draw of one decal.
    fn draw_decal(&self, server: &mut GraphicsServer, decal: &Decal)
        requires
            self.wf(),
        ensures
            final(server).next() == old(server).next(),
            final(server).recorded() == old(server).recorded() + self.decal_draw(*decal),
    {
        let shader = &self.decal_shader;
        let viewport = Rect { x: 0, y: 0, w: self.width, h: self.height };
        server.record(
            GpuCommand::Bind {
                location: shader.world_view_projection,
                value: UniformValue::WorldViewProjection { object: decal.node },
            },
        );
        server.record(
            GpuCommand::Bind {
                location: shader.inv_view_proj,
                value: UniformValue::InverseViewProjection,
            },
        );
        server.record(
            GpuCommand::Bind {
                location: shader.inv_world_decal,
                value: UniformValue::InverseWorld { object: decal.node },
            },
        );
        server.record(
            GpuCommand::Bind {
                location: shader.resolution,
                value: UniformValue::Size { width: self.width, height: self.height },
            },
        );
        server.record(
            GpuCommand::Bind {
                location: shader.scene_depth,
                value: UniformValue::Texture(TextureSource::Gpu(self.depth())),
            },
        );
        server.record(
            GpuCommand::Bind {
                location: shader.diffuse_texture,
                value: UniformValue::Texture(
                    match decal.diffuse_texture {
                        Some(r) => TextureSource::Resource { resource: r, stand_in: StandIn::White },
                        None => TextureSource::StandIn(StandIn::White),
                    },
                ),
            },
        );
        server.record(
            GpuCommand::Bind {
                location: shader.normal_texture,
                value: UniformValue::Texture(
                    match decal.normal_texture {
                        Some(r) => TextureSource::Resource { resource: r, stand_in: StandIn::Normal },
                        None => TextureSource::StandIn(StandIn::Normal),
                    },
                ),
            },
        );
        server.record(
            GpuCommand::Bind {
                location: shader.decal_mask,
                value: UniformValue::Texture(TextureSource::Gpu(self.decal_mask_texture())),
            },
        );
        server.record(
            GpuCommand::Bind {
                location: shader.layer_index,
                value: UniformValue::Unsigned(decal.layer as u32),
            },
        );
        server.record(
            GpuCommand::Bind { location: shader.color, value: UniformValue::LinearColor(decal.color) },
        );
        self.decal_framebuffer.draw(
            server,
            self.cube,
            viewport,
            shader.program,
            DrawParameters {
                cull_back_faces: false,
                color_write: true,
                depth_write: false,
                stencil_test: None,
                depth_test: None,
                blend: Some(DrawParameters::alpha_blend()),
                stencil_op: StencilOp::default(),
                scissor_box: None,
            },
            ElementRange::Full,
        );
        proof {
            assert(server.recorded() =~= old(server).recorded() + self.decal_draw(*decal));
        }
    }

    /// Fills the G-buffer: records what that asks of the server, and
    /// returns the number of draws among it. See
    /// [`GBuffer::fill_requests`]. The G-buffer itself stays as it is.
    pub fn fill(&mut self, server: &mut GraphicsServer, args: GBufferRenderContext) -> (statistics:
        RenderPassStatistics)
        requires
            old(self).wf(),
        ensures
            *final(self) == *old(self),
            statistics.draw_calls == old(self).draws(&args),
            final(server).next() == old(server).next(),
            !args.quality_settings.use_occlusion_culling ==> final(server).recorded() == old(
                server,
            ).recorded() + old(self).fill_requests(&args, Seq::<(u32, u32)>::empty()),
            args.quality_settings.use_occlusion_culling ==> exists|objects: Seq<(u32, u32)>|
                #![trigger objects.no_duplicates()]
                objects.no_duplicates() && objects.to_set() == nodes_upto(
                    args.bundle_storage.bundles@,
                    args.bundle_storage.bundles@.len() as int,
                    0,
                ) && final(server).recorded() == old(server).recorded() + old(self).fill_requests(
                    &args,
                    objects,
                ),
    {
        let settings = args.quality_settings;
        let bundles = &args.bundle_storage.bundles;
        let ghost start = server.recorded();
        if settings.use_occlusion_culling {
            server.record(GpuCommand::QueryVisibility { tester: self.occlusion_tester });
        }
        let viewport = Rect { x: 0, y: 0, w: self.width, h: self.height };
        self.framebuffer.clear(
            server,
            viewport,
            Some(Color { r: 0, g: 0, b: 0, a: 0 }),
            true,
            Some(0),
        );
        let ghost cleared = server.recorded();
        let mut i: usize = 0;
        let mut draws: usize = 0;
        proof {
            assert(cleared + self.bundle_requests(bundles@, settings, args.grid_cell, 0)
                =~= cleared);
        }
        while i < bundles.len()
            invariant
                0 <= i <= bundles@.len(),
                *self == *old(self),
                server.next() == old(server).next(),
                server.recorded() == cleared + self.bundle_requests(
                    bundles@,
                    settings,
                    args.grid_cell,
                    i as nat,
                ),
                draws == self.bundle_requests(bundles@, settings, args.grid_cell, i as nat).len(),
            decreases bundles@.len() - i,
        {
            let bundle = &bundles[i];
            if matches!(bundle.render_path, RenderPath::Deferred) {
                let more = self.render_bundle(server, bundle, settings, args.grid_cell);
                proof {
                    server.lemma_recorded_fits();
                    assert(server.recorded().len() == cleared.len() + draws + more);
                }
                draws += more;
            }
            proof {
                assert(server.recorded() =~= cleared + self.bundle_requests(
                    bundles@,
                    settings,
                    args.grid_cell,
                    (i + 1) as nat,
                ));
            }
            i += 1;
        }
        let ghost drawn = server.recorded();
        let ghost mut order: Seq<(u32, u32)> = Seq::empty();
        if settings.use_occlusion_culling {
            let objects = Self::collect_objects(bundles);
            let items = handles_items(&objects);
            proof {
                order = items@;
            }
            let mut k: usize = 0;
            while k < items.len()
                invariant
                    0 <= k <= items@.len(),
                    *self == *old(self),
                    server.next() == old(server).next(),
                    server.recorded() == drawn + Seq::new(
                        k as nat,
                        |k: int|
                            GpuCommand::TestVisibility {
                                tester: self.occlusion_tester,
                                node: Handle { index: items@[k].0, generation: items@[k].1 },
                            },
                    ),
                decreases items@.len() - k,
            {
                let item = items[k];
                server.record(
                    GpuCommand::TestVisibility {
                        tester: self.occlusion_tester,
                        node: Handle { index: item.0, generation: item.1 },
                    },
                );
                proof {
                    assert(server.recorded() =~= drawn + Seq::new(
                        (k + 1) as nat,
                        |k: int|
                            GpuCommand::TestVisibility {
                                tester: self.occlusion_tester,
                                node: Handle { index: items@[k].0, generation: items@[k].1 },
                            },
                    ));
                }
                k += 1;
            }
            server.record(
                GpuCommand::RunVisibilityTest {
                    tester: self.occlusion_tester,
                    frame_buffer: self.framebuffer.gpu,
                    unit_quad: args.unit_quad,
                },
            );
            proof {
                assert(server.recorded() =~= drawn + self.test_requests(order, args.unit_quad));
            }
        } else {
            proof {
                assert(server.recorded() =~= drawn + Seq::<GpuCommand>::empty());
            }
        }
        let ghost tested = server.recorded();
        let mut d: usize = 0;
        proof {
            assert(tested + self.decal_requests(args.decals@, 0) =~= tested);
        }
        let ghost deferred = draws as nat;
        proof {
            assert(drawn.len() == cleared.len() + deferred);
            assert(tested.len() >= drawn.len());
        }
        while d < args.decals.len()
            invariant
                0 <= d <= args.decals@.len(),
                *self == *old(self),
                self.wf(),
                server.next() == old(server).next(),
                server.recorded() == tested + self.decal_requests(args.decals@, d as nat),
                draws == deferred + d,
                draws <= server.recorded().len(),
                tested.len() >= deferred,
            decreases args.decals@.len() - d,
        {
            let ghost had = server.recorded();
            self.draw_decal(server, &args.decals[d]);
            proof {
                server.lemma_recorded_fits();
                assert(self.decal_draw(args.decals@[d as int]).len() >= 1);
                assert(server.recorded().len() == had.len() + self.decal_draw(
                    args.decals@[d as int],
                ).len());
            }
            draws += 1;
            proof {
                assert(server.recorded() =~= tested + self.decal_requests(
                    args.decals@,
                    (d + 1) as nat,
                ));
            }
            d += 1;
        }
        proof {
            assert(server.recorded() =~= start + self.fill_requests(&args, order));
            if settings.use_occlusion_culling {
                assert(order.no_duplicates());
            }
        }
        RenderPassStatistics { draw_calls: draws }
    }
}

} // verus!
