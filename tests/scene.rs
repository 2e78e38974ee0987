use shower::gromit::{Geometry, Vertex};
use shower::light::{Light, LightRaw};
use shower::scene::{
    BindingSlot, Cached, CullMode, FrameCommand, FrontFace, IndexFormat, ShaderStage,
    SurfaceFormat, Topology, UniformBuffer, Scene, MAX_LIGHTS, pack_lights, pack_vertices,
};
use shower::shader::{
    ShaderCompilationError, Shaders, SpirvError, check_spirv, read_spirv,
};

const LE_MODULE: [u8; 8] = [0x03, 0x02, 0x23, 0x07, 0xF1, 0xF2, 0xF3, 0xF4];
const BE_MODULE: [u8; 8] = [0x07, 0x23, 0x02, 0x03, 0xF1, 0xF2, 0xF3, 0xF4];

fn bits(v: [f32; 3]) -> [u32; 3] {
    [v[0].to_bits(), v[1].to_bits(), v[2].to_bits()]
}

fn light(i: u32) -> Light {
    Light::new([i, i + 1, i + 2], [i + 100, i + 101, i + 102])
}

fn cube() -> Cached {
    let mut vertices = Vec::new();
    for i in 0..8u32 {
        let x = if i & 1 == 0 { -1.0f32 } else { 1.0 };
        let y = if i & 2 == 0 { -1.0f32 } else { 1.0 };
        let z = if i & 4 == 0 { -1.0f32 } else { 1.0 };
        vertices.push(Vertex::new(bits([x, y, z]), bits([x, y, z]), bits([1.0, 0.5, 0.25])));
    }
    let index: Vec<u16> = vec![
        0, 1, 3, 0, 3, 2, 4, 6, 7, 4, 7, 5, 0, 4, 5, 0, 5, 1, 2, 3, 7, 2, 7, 6, 0, 2, 6, 0, 6, 4,
        1, 5, 7, 1, 7, 3,
    ];
    Cached::new(&vertices, &index)
}

fn lights_scene() -> Scene<shower::scene::Lights> {
    Scene::new().manual_shaders(&LE_MODULE, &BE_MODULE).unwrap()
}

#[test]
fn vertex_sizeof_is_36() {
    assert_eq!(Vertex::sizeof(), 36);
    assert_eq!(Vertex::sizeof(), std::mem::size_of::<Vertex>());
    assert_eq!(LightRaw::sizeof(), 32);
    assert_eq!(LightRaw::sizeof(), std::mem::size_of::<LightRaw>());
}

#[test]
fn vertex_raw_round_trip() {
    let v = Vertex::new(bits([1.5, -2.0, 3.25]), bits([0.0, 1.0, 0.0]), bits([0.1, 0.2, 0.3]));
    let raw = v.to_raw();
    assert_eq!(raw[0], 1.5f32.to_bits());
    assert_eq!(raw[4], 1.0f32.to_bits());
    assert_eq!(raw[8], 0.3f32.to_bits());
    assert_eq!(Vertex::from_raw(raw), v);
    assert_eq!(f32::from_bits(Vertex::from_raw(raw).position()[2]), 3.25);
}

#[test]
fn light_raw_round_trip() {
    let l = Light::new(bits([4.0, -4.0, 2.0]), bits([1.0, 0.9, 0.8]));
    let raw = l.to_raw();
    assert_eq!(raw.words(), [
        4.0f32.to_bits(), (-4.0f32).to_bits(), 2.0f32.to_bits(), 0,
        1.0f32.to_bits(), 0.9f32.to_bits(), 0.8f32.to_bits(), 0,
    ]);
    assert_eq!(raw.light(), l);
}

#[test]
fn cached_geometry_repeatable() {
    let c = cube();
    let (v1, i1) = c.geometry();
    let (v2, i2) = c.geometry();
    assert_eq!(v1, v2);
    assert_eq!(i1, i2);
    assert_eq!(v1.len(), 8);
    assert_eq!(i1.len(), 36);
}

#[test]
fn zero_lights_scene() {
    let scene = lights_scene().geometry(cube());
    assert_eq!(scene.lights().len(), 0);
    let ready = scene.prepare(SurfaceFormat::Bgra8Unorm);
    assert_eq!(ready.light_count(), 0);
    assert_eq!(ready.light_words().len(), MAX_LIGHTS * 8);
    assert!(ready.light_words().iter().all(|w| *w == 0));
    assert_eq!(ready.projection(), [0u32; 16]);
    assert_eq!(ready.rotation(), [0u32; 16]);
}

#[test]
fn twelve_lights_keep_first_ten() {
    let mut s = lights_scene();
    for i in 0..12u32 {
        s = s.add_light(light(i * 10));
    }
    assert_eq!(s.lights().len(), 12);
    let p = s.geometry(cube());
    assert_eq!(p.lights().len(), 10);
    for i in 0..10u32 {
        assert_eq!(p.lights()[i as usize], light(i * 10));
    }
    let ready = p.prepare(SurfaceFormat::Rgba8Unorm);
    assert_eq!(ready.light_count(), 10);
    assert_eq!(ready.light_words()[72..80], light(90).to_raw().words());
}

#[test]
fn cube_draws_36_indices() {
    let p = lights_scene().add_light(light(1)).geometry(cube());
    let mut ready = p.prepare(SurfaceFormat::Bgra8UnormSrgb);
    assert_eq!(ready.light_count(), 1);
    assert_eq!(ready.index_count(), 36);
    assert_eq!(ready.vertex_words().len(), 8 * 9);
    let cmds = ready.render([1; 16], [2; 16]);
    assert_eq!(
        cmds.last(),
        Some(&FrameCommand::DrawIndexed { index_count: 36, instance_count: 1 })
    );
}

#[test]
fn render_twice_updates_projection() {
    let mut ready = lights_scene().geometry(cube()).prepare(SurfaceFormat::Bgra8Unorm);
    let first = ready.render([1; 16], [3; 16]);
    assert_eq!(ready.projection(), [1; 16]);
    let second = ready.render([2; 16], [3; 16]);
    assert_eq!(ready.projection(), [2; 16]);
    assert_eq!(first[0], FrameCommand::WriteProjection([1; 16]));
    assert_eq!(second[0], FrameCommand::WriteProjection([2; 16]));
    assert_eq!(second[1], FrameCommand::WriteRotation([3; 16]));
    let draw = second.iter().position(|c| matches!(c, FrameCommand::DrawIndexed { .. }));
    assert_eq!(draw, Some(second.len() - 1));
    assert_eq!(second[2], FrameCommand::BeginPass);
}

#[test]
fn binding_order() {
    let a = lights_scene().add_light(light(0)).geometry(cube()).prepare(SurfaceFormat::Bgra8Unorm);
    let b = lights_scene().geometry(cube()).prepare(SurfaceFormat::Rgba8UnormSrgb);
    let expected = vec![
        BindingSlot { binding: 0, buffer: UniformBuffer::Projection, visibility: ShaderStage::Vertex, size: 64 },
        BindingSlot { binding: 1, buffer: UniformBuffer::Rotation, visibility: ShaderStage::Vertex, size: 64 },
        BindingSlot { binding: 2, buffer: UniformBuffer::LightArray, visibility: ShaderStage::Fragment, size: 320 },
        BindingSlot { binding: 3, buffer: UniformBuffer::LightCount, visibility: ShaderStage::Fragment, size: 4 },
    ];
    assert_eq!(a.bindings(), expected);
    assert_eq!(b.bindings(), expected);
}

#[test]
fn pipeline_layout() {
    let ready = lights_scene().geometry(cube()).prepare(SurfaceFormat::Rgba8Unorm);
    let p = ready.pipeline();
    assert_eq!(p.topology, Topology::TriangleList);
    assert_eq!(p.index_format, IndexFormat::Uint16);
    assert_eq!(p.front_face, FrontFace::Cw);
    assert_eq!(p.cull_mode, Some(CullMode::Back));
    assert_eq!(p.vertex_stride, 36);
    assert_eq!(p.format, SurfaceFormat::Rgba8Unorm);
    assert_eq!(p.sample_count, 1);
    assert!(!p.depth_stencil);
    let offsets: Vec<u64> = ready.vertex_attributes().iter().map(|a| a.offset).collect();
    assert_eq!(offsets, vec![0, 12, 24]);
}

#[test]
fn spirv_words_either_byte_order() {
    assert_eq!(read_spirv(&LE_MODULE), Ok(vec![0x0723_0203, 0xF4F3_F2F1]));
    assert_eq!(read_spirv(&BE_MODULE), Ok(vec![0x0723_0203, 0xF1F2_F3F4]));
    let ready = Scene::new()
        .manual_shaders(&LE_MODULE, &BE_MODULE)
        .unwrap()
        .geometry(cube())
        .prepare(SurfaceFormat::Bgra8Unorm);
    assert_eq!(ready.vertex_shader(), &[0x0723_0203, 0xF4F3_F2F1]);
    assert_eq!(ready.fragment_shader(), &[0x0723_0203, 0xF1F2_F3F4]);
}

#[test]
fn spirv_errors() {
    assert_eq!(check_spirv(&[]), Err(SpirvError::MagicNumber));
    assert_eq!(check_spirv(&[0x03, 0x02, 0x23]), Err(SpirvError::MagicNumber));
    assert_eq!(check_spirv(&[1, 2, 3, 4, 5, 6, 7, 8]), Err(SpirvError::MagicNumber));
    assert_eq!(check_spirv(&[0x03, 0x02, 0x23, 0x07, 1, 2]), Err(SpirvError::Length));
    assert_eq!(check_spirv(&LE_MODULE), Ok(()));
}

#[test]
fn shader_stage_errors() {
    let bad = [0u8; 8];
    assert_eq!(
        Scene::new().manual_shaders(&bad, &LE_MODULE).err(),
        Some(ShaderCompilationError::Vertex(SpirvError::MagicNumber))
    );
    assert_eq!(
        Scene::new().manual_shaders(&LE_MODULE, &LE_MODULE[..6]).err(),
        Some(ShaderCompilationError::Fragment(SpirvError::Length))
    );
    let shaders = Shaders::new(LE_MODULE.to_vec(), BE_MODULE.to_vec());
    let s = Scene::new().shaders(&shaders).unwrap();
    assert_eq!(s.lights().len(), 0);
}

#[test]
fn packed_buffers() {
    let lights = vec![light(5), light(7)];
    let words = pack_lights(&lights);
    assert_eq!(words.len(), 80);
    assert_eq!(words[0..8], [5, 6, 7, 0, 105, 106, 107, 0]);
    assert_eq!(words[8..16], [7, 8, 9, 0, 107, 108, 109, 0]);
    assert!(words[16..].iter().all(|w| *w == 0));
    let v = Vertex::new([1, 2, 3], [4, 5, 6], [7, 8, 9]);
    let w = Vertex::new([10, 11, 12], [13, 14, 15], [16, 17, 18]);
    assert_eq!(pack_vertices(&[v, w]), (1..=18).collect::<Vec<u32>>());
    assert_eq!(pack_vertices(&[]), Vec::<u32>::new());
}
