use imgui_renderer::renderer::{grown_capacity, INITIAL_BUFFER_CAPACITY};
use imgui_renderer::{
    ClipRect, Device, DrawCmd, DrawData, DrawList, FrameSize, IndexRange, RenderBackend, Renderer, RendererError,
    Scissor, Shaders, Texture, TextureFactory, TextureId,
};

#[derive(Clone, Debug, PartialEq)]
enum Call {
    Pipeline,
    VertexBuffer(usize),
    IndexBuffer(usize),
    Texture(u32, u32),
    UploadVertices(usize),
    UploadIndices(usize),
    Draw { target: u32, texture: u32, range: IndexRange, scissor: Scissor },
}

/// A GPU stand-in that records what it is asked to do, and fails where told to.
#[derive(Default)]
struct Stub {
    calls: Vec<Call>,
    textures_made: u32,
    reject_shaders: bool,
    fail_buffers: bool,
    fail_draw_number: Option<usize>,
}

impl Stub {
    fn draws(&self) -> Vec<Call> {
        self.calls.iter().filter(|c| matches!(c, Call::Draw { .. })).cloned().collect()
    }

    fn uploads(&self) -> usize {
        self.calls
            .iter()
            .filter(|c| matches!(c, Call::UploadVertices(_) | Call::UploadIndices(_)))
            .count()
    }
}

impl TextureFactory<u32> for Stub {
    fn create_texture(&mut self, width: u32, height: u32, _rgba: &[u8]) -> Result<u32, RendererError> {
        self.calls.push(Call::Texture(width, height));
        self.textures_made += 1;
        Ok(1000 + self.textures_made)
    }
}

impl RenderBackend<u32, u32, [i32; 2]> for Stub {
    fn create_pipeline(&mut self, vertex_shader: &[u8], fragment_shader: &[u8]) -> Result<(), RendererError> {
        self.calls.push(Call::Pipeline);
        if self.reject_shaders || vertex_shader.is_empty() || fragment_shader.is_empty() {
            return Err(RendererError::Pipeline("unsupported GLSL version".to_owned()));
        }
        Ok(())
    }

    fn create_vertex_buffer(&mut self, capacity: usize) -> Result<(), RendererError> {
        self.calls.push(Call::VertexBuffer(capacity));
        if self.fail_buffers {
            return Err(RendererError::Buffer("no memory".to_owned()));
        }
        Ok(())
    }

    fn create_index_buffer(&mut self, capacity: usize) -> Result<(), RendererError> {
        self.calls.push(Call::IndexBuffer(capacity));
        if self.fail_buffers {
            return Err(RendererError::Buffer("no memory".to_owned()));
        }
        Ok(())
    }

    fn update_vertex_buffer(&mut self, vertices: &[[i32; 2]]) -> Result<(), RendererError> {
        self.calls.push(Call::UploadVertices(vertices.len()));
        Ok(())
    }

    fn update_index_buffer(&mut self, indices: &[u16]) -> Result<(), RendererError> {
        self.calls.push(Call::UploadIndices(indices.len()));
        Ok(())
    }

    fn draw(&mut self, target: &u32, texture: &u32, range: IndexRange, scissor: Scissor) -> Result<(), RendererError> {
        self.calls.push(Call::Draw { target: *target, texture: *texture, range, scissor });
        if self.fail_draw_number == Some(self.draws().len()) {
            return Err(RendererError::Update("device lost".to_owned()));
        }
        Ok(())
    }
}

type Gpu = Device<u32, [i32; 2], Stub>;

const FB: ClipRect = ClipRect { x: 0, y: 0, z: 800, w: 600 };

fn font_pixels() -> Vec<u8> {
    vec![255u8; 8 * 4 * 4]
}

fn ready(device: &mut Gpu) -> Renderer<u32, u32> {
    Renderer::init(device, Shaders::GlSl130, 8, 4, &font_pixels(), 7).ok().unwrap()
}

fn size(logical_width: i32, logical_height: i32) -> FrameSize {
    FrameSize { logical_width, logical_height, fb_width: 800, fb_height: 600 }
}

fn quad_list(texture_id: TextureId, clip_rect: ClipRect) -> DrawList<[i32; 2]> {
    DrawList::new(
        vec![[0, 0], [1, 0], [1, 1], [0, 1]],
        vec![0, 1, 2, 0, 2, 3],
        vec![DrawCmd { elem_count: 6, texture_id, clip_rect }],
    )
    .unwrap()
}

#[test]
fn init_sets_up_buffers_and_font_atlas() {
    let mut device: Gpu = Device::new(Stub::default());
    let renderer = ready(&mut device);
    assert_eq!(
        device.backend().calls,
        vec![
            Call::Pipeline,
            Call::VertexBuffer(256),
            Call::IndexBuffer(256),
            Call::Texture(8, 4)
        ]
    );
    assert_eq!(INITIAL_BUFFER_CAPACITY, 256);
    assert_eq!(renderer.vertex_capacity(), 256);
    assert_eq!(renderer.index_capacity(), 256);
    assert_eq!(*renderer.target(), 7);
    let font = renderer.textures().font_atlas();
    assert_eq!(*font.handle(), 1001);
    assert_eq!(font.get_size(), (8, 4));
    assert!(renderer.textures().contains(TextureId(0)));
    assert!(!renderer.textures().contains(TextureId(1)));
}

#[test]
fn init_fails_when_shaders_do_not_compile() {
    let mut device: Gpu = Device::new(Stub { reject_shaders: true, ..Stub::default() });
    let result = Renderer::<u32, u32>::init(&mut device, Shaders::GlSlEs100, 8, 4, &font_pixels(), 7);
    assert_eq!(result.err(), Some(RendererError::Pipeline("unsupported GLSL version".to_owned())));
    assert_eq!(device.backend().calls, vec![Call::Pipeline]);
}

#[test]
fn init_fails_when_buffers_cannot_be_made() {
    let mut device: Gpu = Device::new(Stub { fail_buffers: true, ..Stub::default() });
    let result = Renderer::<u32, u32>::init(&mut device, Shaders::GlSl400, 8, 4, &font_pixels(), 7);
    assert_eq!(result.err(), Some(RendererError::Buffer("no memory".to_owned())));
    assert_eq!(device.backend().calls, vec![Call::Pipeline, Call::VertexBuffer(256)]);
}

#[test]
fn init_refuses_font_pixels_of_wrong_length() {
    let mut device: Gpu = Device::new(Stub::default());
    let result = Renderer::<u32, u32>::init(&mut device, Shaders::GlSl110, 8, 4, &[0u8; 10], 7);
    assert_eq!(result.err(), Some(RendererError::PixelDataSize { width: 8, height: 4, len: 10 }));
    assert!(device.backend().calls.is_empty());
}

#[test]
fn zero_area_frame_is_skipped() {
    let mut device: Gpu = Device::new(Stub::default());
    let mut renderer = ready(&mut device);
    device.backend_mut().calls.clear();
    for (w, h) in [(0, 0), (0, 300), (300, 0), (-10, 300), (300, -1)].iter() {
        let frame = DrawData { size: size(*w, *h), draw_lists: vec![quad_list(TextureId(0), FB)] };
        assert_eq!(renderer.render(&mut device, &frame), Ok(()));
    }
    assert!(device.backend().calls.is_empty());
    assert_eq!(device.backend().uploads(), 0);
    assert_eq!(renderer.vertex_capacity(), 256);
}

#[test]
fn gradient_texture_is_drawn_once_with_full_scissor() {
    let mut device: Gpu = Device::new(Stub::default());
    let mut renderer = ready(&mut device);
    let mut pixels: Vec<u8> = Vec::new();
    for i in 0..100 {
        for j in 0..100 {
            let (r, g, b, a) = (i as f32 / 100.0, j as f32 / 100.0, 0.0f32, 1.0f32);
            pixels.extend_from_slice(&[(r * 255.0) as u8, (g * 255.0) as u8, (b * 255.0) as u8, (a * 255.0) as u8]);
        }
    }
    let texture = Texture::from_raw(&mut device, 100, 100, &pixels).ok().unwrap();
    let handle = *texture.handle();
    let id = renderer.register_texture(texture);
    assert_ne!(id, TextureId(0));
    device.backend_mut().calls.clear();

    let frame = DrawData { size: size(800, 600), draw_lists: vec![quad_list(id, FB)] };
    assert_eq!(renderer.render(&mut device, &frame), Ok(()));
    assert_eq!(
        device.backend().draws(),
        vec![Call::Draw {
            target: 7,
            texture: handle,
            range: IndexRange { start: 0, end: 6 },
            scissor: Scissor { x: 0, y: 0, w: 800, h: 600 },
        }]
    );
    assert_eq!(renderer.textures().resolve(id).map(|t| *t.handle()), Some(handle));
}

#[test]
fn font_atlas_identity_draws_font_texture() {
    let mut device: Gpu = Device::new(Stub::default());
    let mut renderer = ready(&mut device);
    device.backend_mut().calls.clear();
    let frame = DrawData { size: size(800, 600), draw_lists: vec![quad_list(TextureId(0), FB)] };
    assert_eq!(renderer.render(&mut device, &frame), Ok(()));
    assert_eq!(
        device.backend().calls,
        vec![
            Call::UploadVertices(4),
            Call::UploadIndices(6),
            Call::Draw {
                target: 7,
                texture: 1001,
                range: IndexRange { start: 0, end: 6 },
                scissor: Scissor { x: 0, y: 0, w: 800, h: 600 },
            },
        ]
    );
}

#[test]
fn commands_draw_consecutive_index_ranges() {
    let mut device: Gpu = Device::new(Stub::default());
    let mut renderer = ready(&mut device);
    let list = DrawList::new(
        vec![[0, 0]; 6],
        vec![0u16; 12],
        vec![
            DrawCmd { elem_count: 3, texture_id: TextureId(0), clip_rect: FB },
            DrawCmd { elem_count: 6, texture_id: TextureId(0), clip_rect: ClipRect { x: -20, y: 10, z: 900, w: 50 } },
            DrawCmd { elem_count: 3, texture_id: TextureId(0), clip_rect: ClipRect { x: 5, y: 5, z: 5, w: 5 } },
        ],
    )
    .unwrap();
    device.backend_mut().calls.clear();
    let frame = DrawData { size: size(800, 600), draw_lists: vec![list] };
    assert_eq!(renderer.render(&mut device, &frame), Ok(()));
    let ranges: Vec<(IndexRange, Scissor)> = device
        .backend()
        .draws()
        .into_iter()
        .map(|c| match c {
            Call::Draw { range, scissor, .. } => (range, scissor),
            _ => unreachable!(),
        })
        .collect();
    assert_eq!(
        ranges,
        vec![
            (IndexRange { start: 0, end: 3 }, Scissor { x: 0, y: 0, w: 800, h: 600 }),
            (IndexRange { start: 3, end: 9 }, Scissor { x: 0, y: 10, w: 800, h: 40 }),
            (IndexRange { start: 9, end: 12 }, Scissor { x: 5, y: 5, w: 0, h: 0 }),
        ]
    );
}

#[test]
fn buffers_grow_to_need_and_never_shrink() {
    let mut device: Gpu = Device::new(Stub::default());
    let mut renderer = ready(&mut device);
    device.backend_mut().calls.clear();
    let big = DrawList::new(
        vec![[0, 0]; 300],
        vec![0u16; 600],
        vec![DrawCmd { elem_count: 600, texture_id: TextureId(0), clip_rect: FB }],
    )
    .unwrap();
    let frame = DrawData { size: size(800, 600), draw_lists: vec![quad_list(TextureId(0), FB), big] };
    assert_eq!(renderer.render(&mut device, &frame), Ok(()));
    assert!(device.backend().calls.contains(&Call::VertexBuffer(300)));
    assert!(device.backend().calls.contains(&Call::IndexBuffer(600)));
    assert_eq!(renderer.vertex_capacity(), 300);
    assert_eq!(renderer.index_capacity(), 600);

    device.backend_mut().calls.clear();
    let small = DrawData { size: size(800, 600), draw_lists: vec![quad_list(TextureId(0), FB)] };
    assert_eq!(renderer.render(&mut device, &small), Ok(()));
    assert!(!device.backend().calls.iter().any(|c| matches!(c, Call::VertexBuffer(_) | Call::IndexBuffer(_))));
    assert_eq!(renderer.vertex_capacity(), 300);
    assert_eq!(renderer.index_capacity(), 600);
}

#[test]
fn failed_growth_keeps_capacity() {
    let mut device: Gpu = Device::new(Stub::default());
    let mut renderer = ready(&mut device);
    device.backend_mut().fail_buffers = true;
    let big = DrawList::new(
        vec![[0, 0]; 300],
        vec![0u16; 3],
        vec![DrawCmd { elem_count: 3, texture_id: TextureId(0), clip_rect: FB }],
    )
    .unwrap();
    let frame = DrawData { size: size(800, 600), draw_lists: vec![big] };
    assert_eq!(renderer.render(&mut device, &frame), Err(RendererError::Buffer("no memory".to_owned())));
    assert_eq!(renderer.vertex_capacity(), 256);
    assert!(device.backend().draws().is_empty());
}

#[test]
fn unknown_texture_is_refused_before_any_gpu_work() {
    let mut device: Gpu = Device::new(Stub::default());
    let mut renderer = ready(&mut device);
    device.backend_mut().calls.clear();
    let frame = DrawData {
        size: size(800, 600),
        draw_lists: vec![quad_list(TextureId(0), FB), quad_list(TextureId(42), FB)],
    };
    assert_eq!(renderer.render(&mut device, &frame), Err(RendererError::UnknownTexture(TextureId(42))));
    assert!(device.backend().calls.is_empty());
}

#[test]
fn unregistered_texture_is_refused() {
    let mut device: Gpu = Device::new(Stub::default());
    let mut renderer = ready(&mut device);
    let id = renderer.register_texture(Texture::from_existing(555, 1, 1));
    let removed = renderer.unregister_texture(id).unwrap();
    assert_eq!(*removed.handle(), 555);
    assert!(renderer.unregister_texture(TextureId(0)).is_none());
    device.backend_mut().calls.clear();
    let frame = DrawData { size: size(800, 600), draw_lists: vec![quad_list(id, FB)] };
    assert_eq!(renderer.render(&mut device, &frame), Err(RendererError::UnknownTexture(id)));
    assert!(device.backend().calls.is_empty());
}

#[test]
fn draw_failure_ends_the_frame() {
    let mut device: Gpu = Device::new(Stub::default());
    let mut renderer = ready(&mut device);
    device.backend_mut().fail_draw_number = Some(1);
    device.backend_mut().calls.clear();
    let frame = DrawData {
        size: size(800, 600),
        draw_lists: vec![quad_list(TextureId(0), FB), quad_list(TextureId(0), FB)],
    };
    assert_eq!(renderer.render(&mut device, &frame), Err(RendererError::Update("device lost".to_owned())));
    assert_eq!(device.backend().draws().len(), 1);
    assert_eq!(device.backend().uploads(), 2);
}

#[test]
fn render_target_can_be_swapped() {
    let mut device: Gpu = Device::new(Stub::default());
    let mut renderer = ready(&mut device);
    renderer.update_render_target(9);
    assert_eq!(*renderer.target(), 9);
    assert_eq!(renderer.vertex_capacity(), 256);
    device.backend_mut().calls.clear();
    let frame = DrawData { size: size(800, 600), draw_lists: vec![quad_list(TextureId(0), FB)] };
    assert_eq!(renderer.render(&mut device, &frame), Ok(()));
    assert!(matches!(device.backend().draws()[0], Call::Draw { target: 9, .. }));
}

#[test]
fn buffer_grows_only_to_exact_need() {
    assert_eq!(grown_capacity(256, 100), None);
    assert_eq!(grown_capacity(256, 256), None);
    assert_eq!(grown_capacity(256, 300), Some(300));
    assert_eq!(grown_capacity(0, 1), Some(1));
}

#[test]
fn frame_without_draw_lists_succeeds_untouched() {
    let mut device: Gpu = Device::new(Stub::default());
    let mut renderer = ready(&mut device);
    device.backend_mut().calls.clear();
    let frame: DrawData<[i32; 2]> = DrawData { size: size(800, 600), draw_lists: vec![] };
    assert_eq!(renderer.render(&mut device, &frame), Ok(()));
    assert!(device.backend().calls.is_empty());
    assert_eq!(renderer.vertex_capacity(), 256);
    assert_eq!(renderer.index_capacity(), 256);
}

#[test]
fn texture_lookup_by_identity() {
    let mut device: Gpu = Device::new(Stub::default());
    let mut renderer = ready(&mut device);
    let id = renderer.register_texture(Texture::from_existing(77, 2, 2));
    assert_eq!(renderer.texture(TextureId(0)).map(|t| *t.handle()), Some(1001));
    assert_eq!(renderer.texture(id).map(|t| *t.handle()), Some(77));
    assert!(renderer.texture(TextureId(50)).is_none());
}
