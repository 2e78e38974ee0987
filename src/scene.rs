//! Typestate that holds render pipelines, perspectives and assets.
//!
//! `Scene<Begin>` takes shader bytecode, `Scene<Lights>` collects lights, `Scene<Prepare<T>>`
//! holds the geometry, and `Scene<Ready>` holds everything the video device needs: the
//! contents of each buffer, the bind layout, the pipeline state and, each frame, the
//! commands to record.
use vstd::prelude::*;

use crate::gromit::{Geometry, Vertex, VERTEX_WORDS, vertex_raw};
use crate::light::{Light, LIGHT_WORDS, light_raw_words};
use crate::shader::{
    CompiledShaders, ShaderCompilationError, read_spirv, shader_error, spirv_well_formed,
    spirv_words,
};

verus! {

/// Lights beyond this many are dropped when the geometry is attached.
pub const MAX_LIGHTS: usize = 10;

/// Number of 32-bit words in a 4x4 matrix.
pub const MATRIX_WORDS: usize = 16;

/// A geometry captured once and replayed on every call.
#[derive(Debug, Clone)]
pub struct Cached {
    vertices: Vec<Vertex>,
    index: Vec<u16>,
}

impl Cached {
    pub fn new(vertices: &[Vertex], index: &[u16]) -> (r: Self)
        ensures
            r.spec_geometry() == (vertices@, index@),
    {
        Cached { vertices: vstd::slice::slice_to_vec(vertices), index: vstd::slice::slice_to_vec(index) }
    }
}

impl Geometry for Cached {
    closed spec fn spec_geometry(&self) -> (Seq<Vertex>, Seq<u16>) {
        (self.vertices@, self.index@)
    }

    fn geometry(&self) -> (r: (Vec<Vertex>, Vec<u16>)) {
        (
            vstd::slice::slice_to_vec(self.vertices.as_slice()),
            vstd::slice::slice_to_vec(self.index.as_slice()),
        )
    }
}

/// The lights kept when the geometry is attached: the first `MAX_LIGHTS`, in the order
/// they were added.
pub open spec fn retained_lights(lights: Seq<Light>) -> Seq<Light> {
    if lights.len() <= MAX_LIGHTS {
        lights
    } else {
        lights.take(MAX_LIGHTS as int)
    }
}

/// The contents of the light uniform buffer: `MAX_LIGHTS` slots of `LIGHT_WORDS` words,
/// slot `i` holding the uniform form of light `i`, and zeros in the slots past the lights.
pub open spec fn light_buffer_words(lights: Seq<Light>) -> Seq<u32> {
    Seq::new(
        (MAX_LIGHTS * LIGHT_WORDS) as nat,
        |j: int|
            if j / (LIGHT_WORDS as int) < lights.len() {
                light_raw_words(lights[j / (LIGHT_WORDS as int)])[j % (LIGHT_WORDS as int)]
            } else {
                0u32
            },
    )
}

/// The contents of the vertex buffer: the raw form of each vertex, one after another.
pub open spec fn vertex_buffer_words(vertices: Seq<Vertex>) -> Seq<u32> {
    Seq::new(
        (vertices.len() * VERTEX_WORDS) as nat,
        |j: int| vertex_raw(vertices[j / (VERTEX_WORDS as int)])[j % (VERTEX_WORDS as int)],
    )
}

/// The zero matrix that the two per-frame matrix uniforms start from.
pub open spec fn zero_matrix() -> Seq<u32> {
    Seq::new(MATRIX_WORDS as nat, |j: int| 0u32)
}

/// Packs the light uniform buffer.
pub fn pack_lights(lights: &[Light]) -> (r: Vec<u32>)
    requires
        lights@.len() <= MAX_LIGHTS,
    ensures
        r@ == light_buffer_words(lights@),
{
    let total: usize = MAX_LIGHTS * LIGHT_WORDS;
    let mut out: Vec<u32> = Vec::new();
    let mut j: usize = 0;
    while j < total
        invariant
            total == MAX_LIGHTS * LIGHT_WORDS,
            j <= total,
            out@.len() == j,
            forall|i: int| 0 <= i < j ==> out@[i] == light_buffer_words(lights@)[i],
        decreases total - j,
    {
        let slot = j / LIGHT_WORDS;
        let k = j % LIGHT_WORDS;
        let w: u32 = if slot < lights.len() {
            let words = lights[slot].to_raw().words();
            words[k]
        } else {
            0
        };
        out.push(w);
        j = j + 1;
    }
    assert(out@ =~= light_buffer_words(lights@));
    out
}

/// Packs the vertex buffer.
pub fn pack_vertices(vertices: &[Vertex]) -> (r: Vec<u32>)
    requires
        vertices@.len() * VERTEX_WORDS <= usize::MAX,
    ensures
        r@ == vertex_buffer_words(vertices@),
{
    let total: usize = vertices.len() * VERTEX_WORDS;
    let mut out: Vec<u32> = Vec::new();
    let mut j: usize = 0;
    while j < total
        invariant
            total == vertices@.len() * VERTEX_WORDS,
            j <= total,
            out@.len() == j,
            forall|i: int| 0 <= i < j ==> out@[i] == vertex_buffer_words(vertices@)[i],
        decreases total - j,
    {
        let n = vertices.len();
        assert(j / 9 < n) by (nonlinear_arith)
            requires
                j < n * 9,
        ;
        let raw = vertices[j / VERTEX_WORDS].to_raw();
        out.push(raw[j % VERTEX_WORDS]);
        j = j + 1;
    }
    assert(out@ =~= vertex_buffer_words(vertices@));
    out
}

/// Shader stages that a binding is visible to.
#[derive(Debug, Copy, Clone, PartialEq, Eq, Structural)]
pub enum ShaderStage {
    Vertex,
    Fragment,
}

/// The uniform buffers that the shaders read.
#[derive(Debug, Copy, Clone, PartialEq, Eq, Structural)]
pub enum UniformBuffer {
    Projection,
    Rotation,
    LightArray,
    LightCount,
}

/// One slot of the bind group: which buffer sits at which binding, which stage sees it,
/// and how many bytes of it are bound.
#[derive(Debug, Copy, Clone, PartialEq, Eq, Structural)]
pub struct BindingSlot {
    pub binding: u32,
    pub buffer: UniformBuffer,
    pub visibility: ShaderStage,
    pub size: u64,
}

/// The bind group layout that the shader source expects, in binding order.
pub open spec fn bind_layout() -> Seq<BindingSlot> {
    seq![
        BindingSlot {
            binding: 0,
            buffer: UniformBuffer::Projection,
            visibility: ShaderStage::Vertex,
            size: 64,
        },
        BindingSlot {
            binding: 1,
            buffer: UniformBuffer::Rotation,
            visibility: ShaderStage::Vertex,
            size: 64,
        },
        BindingSlot {
            binding: 2,
            buffer: UniformBuffer::LightArray,
            visibility: ShaderStage::Fragment,
            size: (MAX_LIGHTS * LIGHT_WORDS * 4) as u64,
        },
        BindingSlot {
            binding: 3,
            buffer: UniformBuffer::LightCount,
            visibility: ShaderStage::Fragment,
            size: 4,
        },
    ]
}

/// One attribute of the vertex buffer layout: three 32-bit floats at `offset` bytes into
/// a vertex, read by the shader at `location`.
#[derive(Debug, Copy, Clone, PartialEq, Eq, Structural)]
pub struct VertexAttribute {
    pub location: u32,
    pub offset: u64,
    pub components: u32,
}

/// Position at byte 0, normal at byte 12, colour at byte 24.
pub open spec fn vertex_attributes() -> Seq<VertexAttribute> {
    seq![
        VertexAttribute { location: 0, offset: 0, components: 3 },
        VertexAttribute { location: 1, offset: 12, components: 3 },
        VertexAttribute { location: 2, offset: 24, components: 3 },
    ]
}

#[derive(Debug, Copy, Clone, PartialEq, Eq, Structural)]
pub enum Topology {
    PointList,
    LineList,
    LineStrip,
    TriangleList,
    TriangleStrip,
}

#[derive(Debug, Copy, Clone, PartialEq, Eq, Structural)]
pub enum IndexFormat {
    Uint16,
    Uint32,
}

#[derive(Debug, Copy, Clone, PartialEq, Eq, Structural)]
pub enum FrontFace {
    Ccw,
    Cw,
}

#[derive(Debug, Copy, Clone, PartialEq, Eq, Structural)]
pub enum CullMode {
    Front,
    Back,
}

/// The fixed state of the render pipeline.
#[derive(Debug, Copy, Clone, PartialEq, Eq)]
pub struct PipelineState {
    pub topology: Topology,
    pub index_format: IndexFormat,
    pub front_face: FrontFace,
    pub cull_mode: Option<CullMode>,
    pub vertex_stride: u64,
    pub format: SurfaceFormat,
    pub sample_count: u32,
    pub depth_stencil: bool,
}

/// Triangle lists with 16-bit indices, clockwise front faces, back faces culled, one
/// vertex buffer of `Vertex` records, one colour target of the surface's format, no depth
/// or stencil target and no multisampling.
pub open spec fn pipeline_state(format: SurfaceFormat) -> PipelineState {
    PipelineState {
        topology: Topology::TriangleList,
        index_format: IndexFormat::Uint16,
        front_face: FrontFace::Cw,
        cull_mode: Some(CullMode::Back),
        vertex_stride: (VERTEX_WORDS * 4) as u64,
        format,
        sample_count: 1,
        depth_stencil: false,
    }
}

/// A command recorded into a frame's command buffer.
#[derive(Debug, Copy, Clone, PartialEq, Eq)]
pub enum FrameCommand {
    /// Stage these words and copy them into the persistent projection uniform.
    WriteProjection([u32; 16]),
    /// Stage these words and copy them into the persistent rotation uniform.
    WriteRotation([u32; 16]),
    /// Begin a render pass on the frame that clears it to black.
    BeginPass,
    SetPipeline,
    SetBindGroup(u32),
    SetIndexBuffer,
    SetVertexBuffer(u32),
    /// Draw indices `0..index_count` as `instance_count` instances.
    DrawIndexed { index_count: usize, instance_count: u32 },
}

/// The commands of one frame: both matrix copies come before the render pass that draws
/// the whole index range once.
pub open spec fn frame_commands(
    projection: [u32; 16],
    rotation: [u32; 16],
    index_count: usize,
) -> Seq<FrameCommand> {
    seq![
        FrameCommand::WriteProjection(projection),
        FrameCommand::WriteRotation(rotation),
        FrameCommand::BeginPass,
        FrameCommand::SetPipeline,
        FrameCommand::SetBindGroup(0),
        FrameCommand::SetIndexBuffer,
        FrameCommand::SetVertexBuffer(0),
        FrameCommand::DrawIndexed { index_count, instance_count: 1 },
    ]
}

/// Begin construction of a new `Scene`.
pub struct Begin;

/// Shaders are in; lights are being added.
pub struct Lights {
    frag: Vec<u32>,
    vert: Vec<u32>,
    lights: Vec<Light>,
}

/// Shaders, lights and geometry are in; the device resources are not made yet.
pub struct Prepare<T: Geometry> {
    frag: Vec<u32>,
    vert: Vec<u32>,
    lights: Vec<Light>,
    geometry: T,
}

impl<T: Geometry> Prepare<T> {
    /// At most `MAX_LIGHTS` lights are kept once the geometry is attached.
    #[verifier::type_invariant]
    spec fn lights_capped(&self) -> bool {
        self.lights@.len() <= MAX_LIGHTS
    }
}

/// Pixel formats of the surface that a scene can draw into.
#[derive(Debug, Copy, Clone, PartialEq, Eq, Structural)]
pub enum SurfaceFormat {
    Bgra8Unorm,
    Bgra8UnormSrgb,
    Rgba8Unorm,
    Rgba8UnormSrgb,
}

/// Everything needed to draw, as it goes into the device's buffers.
pub struct Ready {
    frag: Vec<u32>,
    vert: Vec<u32>,
    projection: [u32; 16],
    rotation: [u32; 16],
    vertex_words: Vec<u32>,
    index: Vec<u16>,
    light_words: Vec<u32>,
    light_count: u32,
    format: SurfaceFormat,
}

/// Holds all pertinent data and configuration for rendering a scene onto the video device.
/// Uses the typestate pattern to ensure correct usage. This is not a game engine.
pub struct Scene<S> {
    state: S,
}

impl Scene<Begin> {
    pub fn new() -> (r: Self) {
        Scene { state: Begin }
    }

    /// Takes the vertex and fragment modules of `shaders`.
    pub fn shaders<T: CompiledShaders>(self, shaders: &T) -> (r: Result<
        Scene<Lights>,
        ShaderCompilationError,
    >)
        ensures
            r is Ok <==> spirv_well_formed(shaders.spec_vertex()) && spirv_well_formed(
                shaders.spec_fragment(),
            ),
            r matches Ok(s) ==> s.spec_vert() == spirv_words(shaders.spec_vertex())
                && s.spec_frag() == spirv_words(shaders.spec_fragment())
                && s.spec_lights() == Seq::<Light>::empty(),
            r matches Err(e) ==> e == shader_error(shaders.spec_vertex(), shaders.spec_fragment()),
    {
        self.manual_shaders(shaders.vertex(), shaders.fragment())
    }

    /// Takes vertex and fragment SPIR-V modules as bytes.
    pub fn manual_shaders(self, vert: &[u8], frag: &[u8]) -> (r: Result<
        Scene<Lights>,
        ShaderCompilationError,
    >)
        ensures
            r is Ok <==> spirv_well_formed(vert@) && spirv_well_formed(frag@),
            r matches Ok(s) ==> s.spec_vert() == spirv_words(vert@) && s.spec_frag()
                == spirv_words(frag@) && s.spec_lights() == Seq::<Light>::empty(),
            r matches Err(e) ==> e == shader_error(vert@, frag@),
    {
        let vert = match read_spirv(vert) {
            Ok(w) => w,
            Err(e) => {
                return Err(ShaderCompilationError::Vertex(e));
            },
        };
        let frag = match read_spirv(frag) {
            Ok(w) => w,
            Err(e) => {
                return Err(ShaderCompilationError::Fragment(e));
            },
        };
        Ok(Scene { state: Lights { frag, vert, lights: Vec::new() } })
    }
}

impl Scene<Lights> {
    pub closed spec fn spec_vert(&self) -> Seq<u32> {
        self.state.vert@
    }

    pub closed spec fn spec_frag(&self) -> Seq<u32> {
        self.state.frag@
    }

    pub closed spec fn spec_lights(&self) -> Seq<Light> {
        self.state.lights@
    }

    /// The lights added so far, in order.
    pub fn lights(&self) -> (r: &[Light])
        ensures
            r@ == self.spec_lights(),
    {
        self.state.lights.as_slice()
    }

    /// Add a light. Lights past `MAX_LIGHTS` are dropped when the geometry is attached. If
    /// no lights are added the shape gets no illumination.
    pub fn add_light(self, light: Light) -> (r: Self)
        ensures
            r.spec_lights() == self.spec_lights().push(light),
            r.spec_vert() == self.spec_vert(),
            r.spec_frag() == self.spec_frag(),
    {
        let mut s = self;
        s.state.lights.push(light);
        s
    }

    /// Attaches the geometry, keeping the first `MAX_LIGHTS` lights.
    pub fn geometry<T: Geometry>(self, geometry: T) -> (r: Scene<Prepare<T>>)
        ensures
            r.spec_lights() == retained_lights(self.spec_lights()),
            r.spec_lights().len() <= MAX_LIGHTS,
            r.spec_geometry() == geometry,
            r.spec_vert() == self.spec_vert(),
            r.spec_frag() == self.spec_frag(),
    {
        let mut lights = self.state.lights;
        lights.truncate(MAX_LIGHTS);
        let p = Prepare { frag: self.state.frag, vert: self.state.vert, lights, geometry };
        Scene { state: p }
    }
}

impl<T: Geometry> Scene<Prepare<T>> {
    pub closed spec fn spec_vert(&self) -> Seq<u32> {
        self.state.vert@
    }

    pub closed spec fn spec_frag(&self) -> Seq<u32> {
        self.state.frag@
    }

    pub closed spec fn spec_lights(&self) -> Seq<Light> {
        self.state.lights@
    }

    pub closed spec fn spec_geometry(&self) -> T {
        self.state.geometry
    }

    /// The lights that will be uploaded, in order.
    pub fn lights(&self) -> (r: &[Light])
        ensures
            r@ == self.spec_lights(),
    {
        self.state.lights.as_slice()
    }

    /// Lays out every resource for a surface of `format`: the two matrix uniforms start
    /// at zero, the geometry is evaluated once into the vertex and index buffers, the
    /// lights fill their slots of the light buffer, and the light count is the number of
    /// lights kept.
    pub fn prepare(&self, format: SurfaceFormat) -> (r: Scene<Ready>)
        requires
            self.spec_geometry().spec_geometry().0.len() * VERTEX_WORDS <= usize::MAX,
        ensures
            r.spec_vert() == self.spec_vert(),
            r.spec_frag() == self.spec_frag(),
            r.spec_projection() == zero_matrix(),
            r.spec_rotation() == zero_matrix(),
            r.spec_vertex_words() == vertex_buffer_words(self.spec_geometry().spec_geometry().0),
            r.spec_index() == self.spec_geometry().spec_geometry().1,
            r.spec_light_words() == light_buffer_words(self.spec_lights()),
            r.spec_light_count() == self.spec_lights().len(),
            r.spec_format() == format,
    {
        proof {
            use_type_invariant(&self.state);
        }
        let (vertices, index) = self.state.geometry.geometry();
        let vertex_words = pack_vertices(vertices.as_slice());
        let light_words = pack_lights(self.state.lights.as_slice());
        let light_count = self.state.lights.len() as u32;
        let ready = Ready {
            frag: vstd::slice::slice_to_vec(self.state.frag.as_slice()),
            vert: vstd::slice::slice_to_vec(self.state.vert.as_slice()),
            projection: [0u32; 16],
            rotation: [0u32; 16],
            vertex_words,
            index,
            light_words,
            light_count,
            format,
        };
        assert(ready.projection@ =~= zero_matrix());
        Scene { state: ready }
    }
}

impl Scene<Ready> {
    pub closed spec fn spec_vert(&self) -> Seq<u32> {
        self.state.vert@
    }

    pub closed spec fn spec_frag(&self) -> Seq<u32> {
        self.state.frag@
    }

    pub closed spec fn spec_projection(&self) -> Seq<u32> {
        self.state.projection@
    }

    pub closed spec fn spec_rotation(&self) -> Seq<u32> {
        self.state.rotation@
    }

    pub closed spec fn spec_vertex_words(&self) -> Seq<u32> {
        self.state.vertex_words@
    }

    pub closed spec fn spec_index(&self) -> Seq<u16> {
        self.state.index@
    }

    pub closed spec fn spec_light_words(&self) -> Seq<u32> {
        self.state.light_words@
    }

    pub closed spec fn spec_light_count(&self) -> nat {
        self.state.light_count as nat
    }

    pub closed spec fn spec_format(&self) -> SurfaceFormat {
        self.state.format
    }

    /// The bind group layout, in binding order.
    pub fn bindings(&self) -> (r: Vec<BindingSlot>)
        ensures
            r@ == bind_layout(),
    {
        let light_bytes: u64 = (MAX_LIGHTS * LIGHT_WORDS * 4) as u64;
        let r = vec![
            BindingSlot {
                binding: 0,
                buffer: UniformBuffer::Projection,
                visibility: ShaderStage::Vertex,
                size: 64,
            },
            BindingSlot {
                binding: 1,
                buffer: UniformBuffer::Rotation,
                visibility: ShaderStage::Vertex,
                size: 64,
            },
            BindingSlot {
                binding: 2,
                buffer: UniformBuffer::LightArray,
                visibility: ShaderStage::Fragment,
                size: light_bytes,
            },
            BindingSlot {
                binding: 3,
                buffer: UniformBuffer::LightCount,
                visibility: ShaderStage::Fragment,
                size: 4,
            },
        ];
        assert(r@ =~= bind_layout());
        r
    }

    /// The attributes of the vertex buffer layout.
    pub fn vertex_attributes(&self) -> (r: Vec<VertexAttribute>)
        ensures
            r@ == vertex_attributes(),
    {
        let r = vec![
            VertexAttribute { location: 0, offset: 0, components: 3 },
            VertexAttribute { location: 1, offset: 12, components: 3 },
            VertexAttribute { location: 2, offset: 24, components: 3 },
        ];
        assert(r@ =~= vertex_attributes());
        r
    }

    /// The fixed state of the render pipeline.
    pub fn pipeline(&self) -> (r: PipelineState)
        ensures
            r == pipeline_state(self.spec_format()),
    {
        PipelineState {
            topology: Topology::TriangleList,
            index_format: IndexFormat::Uint16,
            front_face: FrontFace::Cw,
            cull_mode: Some(CullMode::Back),
            vertex_stride: Vertex::sizeof() as u64,
            format: self.state.format,
            sample_count: 1,
            depth_stencil: false,
        }
    }

    /// Draws one frame with the given projection and rotation matrices: both become the
    /// contents of the persistent uniforms, and the returned commands copy them there
    /// before the draw that reads them.
    pub fn render(&mut self, projection: [u32; 16], rotation: [u32; 16]) -> (r: Vec<
        FrameCommand,
    >)
        ensures
            r@ == frame_commands(projection, rotation, old(self).spec_index().len() as usize),
            final(self).spec_projection() == projection@,
            final(self).spec_rotation() == rotation@,
            final(self).spec_vert() == old(self).spec_vert(),
            final(self).spec_frag() == old(self).spec_frag(),
            final(self).spec_vertex_words() == old(self).spec_vertex_words(),
            final(self).spec_index() == old(self).spec_index(),
            final(self).spec_light_words() == old(self).spec_light_words(),
            final(self).spec_light_count() == old(self).spec_light_count(),
            final(self).spec_format() == old(self).spec_format(),
    {
        self.state.projection = projection;
        self.state.rotation = rotation;
        let index_count = self.state.index.len();
        let r = vec![
            FrameCommand::WriteProjection(projection),
            FrameCommand::WriteRotation(rotation),
            FrameCommand::BeginPass,
            FrameCommand::SetPipeline,
            FrameCommand::SetBindGroup(0),
            FrameCommand::SetIndexBuffer,
            FrameCommand::SetVertexBuffer(0),
            FrameCommand::DrawIndexed { index_count, instance_count: 1 },
        ];
        assert(r@ =~= frame_commands(projection, rotation, index_count));
        r
    }

    /// Number of indices drawn each frame.
    pub fn index_count(&self) -> (r: usize)
        ensures
            r == self.spec_index().len(),
    {
        self.state.index.len()
    }

    /// Current contents of the projection uniform.
    pub fn projection(&self) -> (r: [u32; 16])
        ensures
            r@ == self.spec_projection(),
    {
        self.state.projection
    }

    /// Current contents of the rotation uniform.
    pub fn rotation(&self) -> (r: [u32; 16])
        ensures
            r@ == self.spec_rotation(),
    {
        self.state.rotation
    }

    /// Contents of the vertex buffer.
    pub fn vertex_words(&self) -> (r: &[u32])
        ensures
            r@ == self.spec_vertex_words(),
    {
        self.state.vertex_words.as_slice()
    }

    /// Contents of the index buffer.
    pub fn index(&self) -> (r: &[u16])
        ensures
            r@ == self.spec_index(),
    {
        self.state.index.as_slice()
    }

    /// Contents of the light uniform buffer.
    pub fn light_words(&self) -> (r: &[u32])
        ensures
            r@ == self.spec_light_words(),
    {
        self.state.light_words.as_slice()
    }

    /// Contents of the light count uniform.
    pub fn light_count(&self) -> (r: u32)
        ensures
            r == self.spec_light_count(),
    {
        self.state.light_count
    }

    /// Words of the vertex shader module.
    pub fn vertex_shader(&self) -> (r: &[u32])
        ensures
            r@ == self.spec_vert(),
    {
        self.state.vert.as_slice()
    }

    /// Words of the fragment shader module.
    pub fn fragment_shader(&self) -> (r: &[u32])
        ensures
            r@ == self.spec_frag(),
    {
        self.state.frag.as_slice()
    }
}

/// However many lights were added, the first `MAX_LIGHTS` of them are kept, in the order
/// they were added: all of them when there are at most `MAX_LIGHTS`. The light buffer then
/// holds those lights slot by slot and zeros after them.
pub proof fn lemma_light_retention(lights: Seq<Light>)
    ensures
        lights.len() <= MAX_LIGHTS ==> retained_lights(lights).len() == lights.len(),
        lights.len() > MAX_LIGHTS ==> retained_lights(lights).len() == MAX_LIGHTS,
        forall|i: int|
            0 <= i < retained_lights(lights).len() ==> #[trigger] retained_lights(lights)[i]
                == lights[i],
        light_buffer_words(retained_lights(lights)).len() == MAX_LIGHTS * LIGHT_WORDS,
        forall|j: int|
            0 <= j < MAX_LIGHTS * LIGHT_WORDS ==> #[trigger] light_buffer_words(
                retained_lights(lights),
            )[j] == if j / (LIGHT_WORDS as int) < lights.len() {
                light_raw_words(lights[j / (LIGHT_WORDS as int)])[j % (LIGHT_WORDS as int)]
            } else {
                0u32
            },
{
    let kept = retained_lights(lights);
    assert forall|j: int| 0 <= j < MAX_LIGHTS * LIGHT_WORDS implies #[trigger] light_buffer_words(
        kept,
    )[j] == if j / (LIGHT_WORDS as int) < lights.len() {
        light_raw_words(lights[j / (LIGHT_WORDS as int)])[j % (LIGHT_WORDS as int)]
    } else {
        0u32
    } by {
        assert(j / (LIGHT_WORDS as int) < MAX_LIGHTS);
    }
}

/// When frames are drawn one after another, the last projection written before each
/// draw is the one handed to that frame.
pub proof fn lemma_projection_precedes_draw(
    proj_a: [u32; 16],
    rot_a: [u32; 16],
    proj_b: [u32; 16],
    rot_b: [u32; 16],
    n: usize,
)
    ensures
        ({
            let first = frame_commands(proj_a, rot_a, n);
            let both = first + frame_commands(proj_b, rot_b, n);
            let d = both.len() - 1;
            &&& both[d] == FrameCommand::DrawIndexed { index_count: n, instance_count: 1 }
            &&& both[first.len() as int] == FrameCommand::WriteProjection(proj_b)
            &&& first.len() < d
            &&& forall|j: int|
                first.len() < j < d ==> !(#[trigger] both[j] is WriteProjection)
        }),
        ({
            let first = frame_commands(proj_a, rot_a, n);
            &&& first[0] == FrameCommand::WriteProjection(proj_a)
            &&& first[first.len() - 1] == FrameCommand::DrawIndexed {
                index_count: n,
                instance_count: 1,
            }
            &&& forall|j: int| 0 < j < first.len() ==> !(#[trigger] first[j] is WriteProjection)
        }),
{
    let first = frame_commands(proj_a, rot_a, n);
    let second = frame_commands(proj_b, rot_b, n);
    let both = first + second;
    assert forall|j: int| first.len() < j < both.len() - 1 implies !(#[trigger] both[j] is WriteProjection) by {
        assert(both[j] == second[j - first.len()]);
    }
}

} // verus!
