//! The renderer: it owns the registered textures, tracks how large the GPU geometry
//! buffers are, and turns each frame's draw lists into draw calls on a backend.
use vstd::prelude::*;

use crate::device::{
    lemma_ran_continue, lemma_ran_nothing, lemma_ran_one, lemma_ran_stopped, lemma_ran_then, outcome_of, ran,
    Device, Entry, RenderBackend, Request,
};
use crate::draw::{draw_call_spec, DrawCall, DrawList};
use crate::error::RendererError;
use crate::registry::{TextureId, TextureRegistry, FONT_ATLAS_ID};
use crate::shaders::{fragment_source, vertex_source, Shaders};
use crate::texture::{rgba_len, rgba_len_matches, Texture};
use vstd::string::StringSliceAdditionalSpecFns;

verus! {

/// How many vertices and indices the geometry buffers hold when a renderer starts.
pub const INITIAL_BUFFER_CAPACITY: usize = 256;

/// A frame's size: logical, in GUI units, and of the framebuffer, in pixels.
#[derive(Clone, Copy, Debug, PartialEq, Eq, Structural)]
pub struct FrameSize {
    pub logical_width: i32,
    pub logical_height: i32,
    pub fb_width: u16,
    pub fb_height: u16,
}

impl FrameSize {
    pub open spec fn spec_has_area(self) -> bool {
        self.logical_width > 0 && self.logical_height > 0
    }

    /// Whether there is anything to draw into: a minimized window has no area.
    pub fn has_area(&self) -> (r: bool)
        ensures
            r == self.spec_has_area(),
    {
        self.logical_width > 0 && self.logical_height > 0
    }
}

/// What the GUI core produced for one frame.
pub struct DrawData<V> {
    pub size: FrameSize,
    pub draw_lists: Vec<DrawList<V>>,
}

/// A buffer capacity of `cap` after it has grown, where needed, to each of `lens` in turn.
pub open spec fn capacity_need(cap: nat, lens: Seq<nat>) -> nat
    decreases lens.len(),
{
    if lens.len() == 0 {
        cap
    } else {
        let prev = capacity_need(cap, lens.drop_last());
        if prev >= lens.last() {
            prev
        } else {
            lens.last()
        }
    }
}

/// The vertex counts of `lists`, in order.
pub open spec fn vertex_counts<V>(lists: Seq<DrawList<V>>) -> Seq<nat> {
    Seq::new(lists.len(), |i: int| lists[i].vertices().len())
}

/// The index counts of `lists`, in order.
pub open spec fn index_counts<V>(lists: Seq<DrawList<V>>) -> Seq<nat> {
    Seq::new(lists.len(), |i: int| lists[i].indices().len())
}

/// Every command of `lists` names a texture that `textures` holds.
pub open spec fn textures_live<H, V>(textures: TextureRegistry<Texture<H>>, lists: Seq<DrawList<V>>) -> bool {
    forall|i: int, j: int|
        0 <= i < lists.len() && 0 <= j < lists[i].commands().len() ==> textures@.contains_key(
            #[trigger] lists[i].commands()[j].texture_id.0,
        )
}

proof fn lemma_capacity_need_step(cap: nat, lens: Seq<nat>, i: int)
    requires
        0 <= i < lens.len(),
    ensures
        capacity_need(cap, lens.take(i + 1)) == if capacity_need(cap, lens.take(i)) >= lens[i] {
            capacity_need(cap, lens.take(i))
        } else {
            lens[i]
        },
{
    assert(lens.take(i + 1).drop_last() =~= lens.take(i));
}

proof fn lemma_capacity_need_monotone(cap: nat, lens: Seq<nat>, i: int, j: int)
    requires
        0 <= i <= j <= lens.len(),
    ensures
        cap <= capacity_need(cap, lens.take(i)) <= capacity_need(cap, lens.take(j)),
    decreases j,
{
    if i < j {
        lemma_capacity_need_step(cap, lens, j - 1);
        lemma_capacity_need_monotone(cap, lens, i, j - 1);
    } else if j == 0 {
        assert(lens.take(0) =~= Seq::<nat>::empty());
    } else {
        lemma_capacity_need_step(cap, lens, j - 1);
        lemma_capacity_need_monotone(cap, lens, j - 1, j - 1);
    }
}

/// The capacity that a buffer of `cap` elements must be replaced by to hold `len`
/// elements: `None` when it already does, else exactly `len`.
pub fn grown_capacity(cap: usize, len: usize) -> (r: Option<usize>)
    ensures
        r == if cap >= len {
            None::<usize>
        } else {
            Some(len)
        },
{
    if cap >= len {
        None
    } else {
        Some(len)
    }
}

/// The requests that make room for and write `vertices` into a vertex buffer of `cap`.
pub open spec fn vertex_upload_plan<H, V>(cap: nat, vertices: Seq<V>) -> Seq<Request<H, V>> {
    let grow = if cap >= vertices.len() {
        Seq::empty()
    } else {
        seq![Request::CreateVertexBuffer { capacity: vertices.len() as usize }]
    };
    grow + seq![Request::UpdateVertexBuffer { vertices }]
}

/// The requests that make room for and write `indices` into an index buffer of `cap`.
pub open spec fn index_upload_plan<H, V>(cap: nat, indices: Seq<u16>) -> Seq<Request<H, V>> {
    let grow = if cap >= indices.len() {
        Seq::empty()
    } else {
        seq![Request::CreateIndexBuffer { capacity: indices.len() as usize }]
    };
    grow + seq![Request::UpdateIndexBuffer { indices }]
}

/// One draw per command of `list`, in order, each with its command's draw call and the
/// texture that `textures` holds under the command's identity.
pub open spec fn draw_plan<H, V>(
    textures: TextureRegistry<Texture<H>>,
    list: DrawList<V>,
    fb_width: u16,
    fb_height: u16,
) -> Seq<Request<H, V>> {
    Seq::new(
        list.commands().len(),
        |j: int|
            {
                let call = draw_call_spec(list.commands(), j, fb_width, fb_height);
                Request::Draw {
                    texture: textures@[call.texture_id.0].spec_handle(),
                    range: call.range,
                    scissor: call.scissor,
                }
            },
    )
}

/// The requests that draw `list` with buffers of `vcap` vertices and `icap` indices:
/// its vertex upload, its index upload, then its draws.
pub open spec fn list_plan<H, V>(
    vcap: nat,
    icap: nat,
    textures: TextureRegistry<Texture<H>>,
    list: DrawList<V>,
    fb_width: u16,
    fb_height: u16,
) -> Seq<Request<H, V>> {
    vertex_upload_plan(vcap, list.vertices()) + (index_upload_plan(icap, list.indices()) + draw_plan(
        textures,
        list,
        fb_width,
        fb_height,
    ))
}

/// The requests that draw `lists` in turn, starting from buffers of `vcap` vertices and
/// `icap` indices, each list with the buffers as the lists before it left them.
pub open spec fn frame_plan<H, V>(
    vcap: nat,
    icap: nat,
    textures: TextureRegistry<Texture<H>>,
    lists: Seq<DrawList<V>>,
    fb_width: u16,
    fb_height: u16,
) -> Seq<Request<H, V>>
    decreases lists.len(),
{
    if lists.len() == 0 {
        Seq::empty()
    } else {
        let before = lists.drop_last();
        frame_plan(vcap, icap, textures, before, fb_width, fb_height) + list_plan(
            capacity_need(vcap, vertex_counts(before)),
            capacity_need(icap, index_counts(before)),
            textures,
            lists.last(),
            fb_width,
            fb_height,
        )
    }
}

/// The requests that set up a renderer: the pipeline from the shaders of `shaders`,
/// both buffers at [`INITIAL_BUFFER_CAPACITY`], then the font atlas texture.
pub open spec fn init_plan<H, V>(shaders: Shaders, font_width: u32, font_height: u32, font_pixels: Seq<u8>) -> Seq<
    Request<H, V>,
> {
    seq![
        Request::CreatePipeline {
            vertex_shader: vertex_source(shaders).spec_bytes(),
            fragment_shader: fragment_source(shaders).spec_bytes(),
        },
        Request::CreateVertexBuffer { capacity: INITIAL_BUFFER_CAPACITY },
        Request::CreateIndexBuffer { capacity: INITIAL_BUFFER_CAPACITY },
        Request::CreateTexture { width: font_width, height: font_height, rgba: font_pixels },
    ]
}

proof fn lemma_frame_plan_prefix<H, V>(
    vcap: nat,
    icap: nat,
    textures: TextureRegistry<Texture<H>>,
    lists: Seq<DrawList<V>>,
    fb_width: u16,
    fb_height: u16,
    j: int,
    k: int,
)
    requires
        0 <= j <= k <= lists.len(),
    ensures
        frame_plan(vcap, icap, textures, lists.take(j), fb_width, fb_height).len() <= frame_plan(
            vcap,
            icap,
            textures,
            lists.take(k),
            fb_width,
            fb_height,
        ).len(),
        frame_plan(vcap, icap, textures, lists.take(k), fb_width, fb_height).take(
            frame_plan(vcap, icap, textures, lists.take(j), fb_width, fb_height).len() as int,
        ) == frame_plan(vcap, icap, textures, lists.take(j), fb_width, fb_height),
    decreases k - j,
{
    let pj = frame_plan(vcap, icap, textures, lists.take(j), fb_width, fb_height);
    if j == k {
        assert(pj.take(pj.len() as int) =~= pj);
    } else {
        lemma_frame_plan_prefix(vcap, icap, textures, lists, fb_width, fb_height, j, k - 1);
        assert(lists.take(k).drop_last() =~= lists.take(k - 1));
        let pk1 = frame_plan(vcap, icap, textures, lists.take(k - 1), fb_width, fb_height);
        let pk = frame_plan(vcap, icap, textures, lists.take(k), fb_width, fb_height);
        assert(pk.take(pj.len() as int) =~= pk1.take(pj.len() as int));
    }
}

/// Draws immediate-mode GUI frames through a [`RenderBackend`] whose textures are of
/// type `H` and whose render targets are of type `O`.
///
/// The renderer owns every texture that draw commands may name; the font atlas is
/// always registered under identity `0`. Its geometry buffers only ever grow.
pub struct Renderer<H, O> {
    textures: TextureRegistry<Texture<H>>,
    vertex_capacity: usize,
    index_capacity: usize,
    target: O,
}

impl<H, O> Renderer<H, O> {
    /// The registry is well formed: the font atlas is in it.
    pub open spec fn wf(&self) -> bool {
        self.registry().wf()
    }

    pub closed spec fn registry(&self) -> TextureRegistry<Texture<H>> {
        self.textures
    }

    pub closed spec fn spec_vertex_capacity(&self) -> nat {
        self.vertex_capacity as nat
    }

    pub closed spec fn spec_index_capacity(&self) -> nat {
        self.index_capacity as nat
    }

    pub closed spec fn spec_target(&self) -> O {
        self.target
    }

    /// Sets up a renderer: builds the pipeline from the shaders of `shaders`, creates
    /// vertex and index buffers of [`INITIAL_BUFFER_CAPACITY`], and uploads the font
    /// atlas from its RGBA8 pixels, registering it under identity `0`.
    ///
    /// Font pixels of the wrong length are refused before the device is asked for
    /// anything. Otherwise the device is asked for the steps of [`init_plan`] in order,
    /// up to the first that fails, whose error is handed back; a renderer is made
    /// exactly when every step succeeded.
    pub fn init<V, B: RenderBackend<H, O, V>>(
        device: &mut Device<H, V, B>,
        shaders: Shaders,
        font_width: u32,
        font_height: u32,
        font_pixels: &[u8],
        target: O,
    ) -> (r: Result<Self, RendererError>)
        ensures
            font_pixels@.len() != rgba_len(font_width, font_height) ==> r == Err::<Self, _>(
                RendererError::PixelDataSize {
                    width: font_width,
                    height: font_height,
                    len: font_pixels@.len() as usize,
                },
            ) && *final(device) == *old(device),
            font_pixels@.len() == rgba_len(font_width, font_height) ==> ran(
                old(device).log(),
                final(device).log(),
                init_plan(shaders, font_width, font_height, font_pixels@),
                outcome_of(r),
            ),
            r matches Ok(renderer) ==> {
                &&& renderer.wf()
                &&& renderer.registry()@.dom() == Set::<usize>::empty().insert(FONT_ATLAS_ID)
                &&& renderer.registry()@[FONT_ATLAS_ID].spec_size() == (font_width, font_height)
                &&& renderer.registry().issued() == 1
                &&& renderer.spec_vertex_capacity() == INITIAL_BUFFER_CAPACITY
                &&& renderer.spec_index_capacity() == INITIAL_BUFFER_CAPACITY
                &&& renderer.spec_target() == target
            },
    {
        if !rgba_len_matches(font_width, font_height, font_pixels.len()) {
            return Err(
                RendererError::PixelDataSize {
                    width: font_width,
                    height: font_height,
                    len: font_pixels.len(),
                },
            );
        }
        let ghost plan = init_plan::<H, V>(shaders, font_width, font_height, font_pixels@);
        let ghost log0 = device.log();
        proof {
            lemma_ran_nothing(log0);
            assert(plan.take(0) =~= Seq::<Request<H, V>>::empty());
        }
        let (vs_code, fs_code) = shaders.get_program_code();
        let ghost l0 = device.log();
        let made = device.create_pipeline::<O>(vs_code, fs_code);
        proof {
            lemma_ran_one(l0, Entry { request: plan[0], outcome: made });
            assert(plan.subrange(0, 1) =~= seq![plan[0]]);
            lemma_ran_continue(log0, l0, device.log(), plan, 0, 1, made);
        }
        if let Err(e) = made {
            return Err(e);
        }
        let ghost l1 = device.log();
        let made = device.create_vertex_buffer::<O>(INITIAL_BUFFER_CAPACITY);
        proof {
            lemma_ran_one(l1, Entry { request: plan[1], outcome: made });
            assert(plan.subrange(1, 2) =~= seq![plan[1]]);
            lemma_ran_continue(log0, l1, device.log(), plan, 1, 1, made);
        }
        if let Err(e) = made {
            return Err(e);
        }
        let ghost l2 = device.log();
        let made = device.create_index_buffer::<O>(INITIAL_BUFFER_CAPACITY);
        proof {
            lemma_ran_one(l2, Entry { request: plan[2], outcome: made });
            assert(plan.subrange(2, 3) =~= seq![plan[2]]);
            lemma_ran_continue(log0, l2, device.log(), plan, 2, 1, made);
        }
        if let Err(e) = made {
            return Err(e);
        }
        let ghost l3 = device.log();
        let font = Texture::from_raw(device, font_width, font_height, font_pixels);
        proof {
            assert(plan.subrange(3, 4) =~= seq![plan[3]]);
            lemma_ran_continue(log0, l3, device.log(), plan, 3, 1, outcome_of(font));
            assert(plan.take(4) =~= plan);
        }
        let font = match font {
            Ok(font) => font,
            Err(e) => return Err(e),
        };
        let textures = TextureRegistry::new(font);
        assert(textures@.dom() =~= Set::<usize>::empty().insert(FONT_ATLAS_ID));
        Ok(
            Renderer {
                textures,
                vertex_capacity: INITIAL_BUFFER_CAPACITY,
                index_capacity: INITIAL_BUFFER_CAPACITY,
                target,
            },
        )
    }

    /// Points later frames at another render target; no GPU resource is touched.
    pub fn update_render_target(&mut self, target: O)
        ensures
            final(self).spec_target() == target,
            final(self).registry() == old(self).registry(),
            final(self).spec_vertex_capacity() == old(self).spec_vertex_capacity(),
            final(self).spec_index_capacity() == old(self).spec_index_capacity(),
    {
        self.target = target;
    }

    /// Registers a texture so that draw commands can name it; returns its identity.
    pub fn register_texture(&mut self, texture: Texture<H>) -> (id: TextureId)
        requires
            old(self).wf(),
        ensures
            final(self).wf(),
            TextureRegistry::registered(old(self).registry(), final(self).registry(), texture, id),
            TextureRegistry::keeps_entries(old(self).registry(), final(self).registry()),
            final(self).spec_target() == old(self).spec_target(),
            final(self).spec_vertex_capacity() == old(self).spec_vertex_capacity(),
            final(self).spec_index_capacity() == old(self).spec_index_capacity(),
    {
        self.textures.register(texture)
    }

    /// Takes a texture out of the renderer; draw commands that still name it are then
    /// refused. The font atlas stays: for its identity this returns `None`.
    pub fn unregister_texture(&mut self, id: TextureId) -> (r: Option<Texture<H>>)
        requires
            old(self).wf(),
        ensures
            final(self).wf(),
            TextureRegistry::keeps_entries(old(self).registry(), final(self).registry()),
            if id.0 != FONT_ATLAS_ID && old(self).registry()@.contains_key(id.0) {
                r == Some(old(self).registry()@[id.0]) && final(self).registry()@ == old(
                    self,
                ).registry()@.remove(id.0)
            } else {
                r is None && final(self).registry()@ == old(self).registry()@
            },
            final(self).spec_target() == old(self).spec_target(),
            final(self).spec_vertex_capacity() == old(self).spec_vertex_capacity(),
            final(self).spec_index_capacity() == old(self).spec_index_capacity(),
    {
        self.textures.unregister(id)
    }

    /// The registered textures.
    pub fn textures(&self) -> (r: &TextureRegistry<Texture<H>>)
        ensures
            *r == self.registry(),
    {
        &self.textures
    }

    /// How many vertices the vertex buffer holds.
    pub fn vertex_capacity(&self) -> (r: usize)
        ensures
            r == self.spec_vertex_capacity(),
    {
        self.vertex_capacity
    }

    /// How many indices the index buffer holds.
    pub fn index_capacity(&self) -> (r: usize)
        ensures
            r == self.spec_index_capacity(),
    {
        self.index_capacity
    }

    /// The render target that frames are drawn into.
    pub fn target(&self) -> (r: &O)
        ensures
            *r == self.spec_target(),
    {
        &self.target
    }

    /// The texture that a draw command naming `id` is drawn with: the font atlas for
    /// identity `0`, otherwise the registered texture, if any.
    pub fn texture(&self, id: TextureId) -> (r: Option<&Texture<H>>)
        requires
            self.wf(),
        ensures
            match r {
                Some(t) => self.registry().lookup(id) == Some(*t),
                None => self.registry().lookup(id) is None,
            },
    {
        if id.is_font_atlas() {
            Some(self.textures.font_atlas())
        } else {
            self.textures.resolve(id)
        }
    }

    /// A texture identity that a command of `lists` names and the registry does not
    /// hold, if there is one.
    pub fn find_unknown_texture<V>(&self, lists: &Vec<DrawList<V>>) -> (r: Option<TextureId>)
        ensures
            r is None <==> textures_live(self.registry(), lists@),
            r matches Some(id) ==> !self.registry()@.contains_key(id.0) && exists|i: int, j: int|
                0 <= i < lists@.len() && 0 <= j < lists@[i].commands().len()
                    && #[trigger] lists@[i].commands()[j].texture_id == id,
    {
        let mut i: usize = 0;
        while i < lists.len()
            invariant
                i <= lists@.len(),
                forall|a: int, b: int|
                    0 <= a < i && 0 <= b < lists@[a].commands().len() ==> self.registry()@.contains_key(
                        #[trigger] lists@[a].commands()[b].texture_id.0,
                    ),
            decreases lists@.len() - i,
        {
            let cmds = lists[i].cmd_buffer();
            let mut j: usize = 0;
            while j < cmds.len()
                invariant
                    i < lists@.len(),
                    j <= cmds@.len(),
                    cmds@ == lists@[i as int].commands(),
                    forall|a: int, b: int|
                        0 <= a < i && 0 <= b < lists@[a].commands().len()
                            ==> self.registry()@.contains_key(
                            #[trigger] lists@[a].commands()[b].texture_id.0,
                        ),
                    forall|b: int|
                        0 <= b < j ==> self.registry()@.contains_key(
                            #[trigger] lists@[i as int].commands()[b].texture_id.0,
                        ),
                decreases cmds@.len() - j,
            {
                let id = cmds[j].texture_id;
                if !self.textures.contains(id) {
                    assert(lists@[i as int].commands()[j as int].texture_id == id);
                    return Some(id);
                }
                j = j + 1;
            }
            i = i + 1;
        }
        None
    }

    /// Makes the vertex buffer large enough for `vertices`, replacing it by one of exactly
    /// their number where [`grown_capacity`] says so, and writes them into it. A failed
    /// replacement keeps the old capacity and writes nothing.
    fn upload_vertex_buffer<V, B: RenderBackend<H, O, V>>(&mut self, device: &mut Device<H, V, B>, vertices: &[V]) -> (r:
        Result<(), RendererError>)
        ensures
            final(self).registry() == old(self).registry(),
            final(self).spec_target() == old(self).spec_target(),
            final(self).spec_index_capacity() == old(self).spec_index_capacity(),
            ran(old(device).log(), final(device).log(), vertex_upload_plan(old(self).spec_vertex_capacity(), vertices@), r),
            final(self).spec_vertex_capacity() == if old(self).spec_vertex_capacity() < vertices@.len()
                && final(device).log().len() == old(device).log().len() + 2 {
                vertices@.len()
            } else {
                old(self).spec_vertex_capacity()
            },
    {
        let ghost log0 = device.log();
        let ghost cap0 = self.spec_vertex_capacity();
        let ghost grow: Seq<Request<H, V>> = if cap0 >= vertices@.len() {
            Seq::empty()
        } else {
            seq![Request::CreateVertexBuffer { capacity: vertices@.len() as usize }]
        };
        let ghost update = seq![Request::<H, V>::UpdateVertexBuffer { vertices: vertices@ }];
        proof {
            lemma_ran_nothing(log0);
        }
        if let Some(capacity) = grown_capacity(self.vertex_capacity, vertices.len()) {
            let made = device.create_vertex_buffer::<O>(capacity);
            proof {
                lemma_ran_one(log0, Entry { request: grow[0], outcome: made });
                assert(seq![grow[0]] =~= grow);
            }
            if let Err(e) = made {
                proof {
                    lemma_ran_stopped(log0, device.log(), grow, update, e);
                }
                return Err(e);
            }
            self.vertex_capacity = capacity;
        }
        let ghost mid = device.log();
        let r = device.update_vertex_buffer::<O>(vertices);
        proof {
            lemma_ran_one(mid, Entry { request: update[0], outcome: r });
            assert(seq![update[0]] =~= update);
            lemma_ran_then(log0, mid, device.log(), grow, update, r);
        }
        r
    }

    /// Makes the index buffer large enough for `indices`, replacing it by one of exactly
    /// their number where [`grown_capacity`] says so, and writes them into it. A failed
    /// replacement keeps the old capacity and writes nothing.
    fn upload_index_buffer<V, B: RenderBackend<H, O, V>>(&mut self, device: &mut Device<H, V, B>, indices: &[u16]) -> (r:
        Result<(), RendererError>)
        ensures
            final(self).registry() == old(self).registry(),
            final(self).spec_target() == old(self).spec_target(),
            final(self).spec_vertex_capacity() == old(self).spec_vertex_capacity(),
            ran(old(device).log(), final(device).log(), index_upload_plan(old(self).spec_index_capacity(), indices@), r),
            final(self).spec_index_capacity() == if old(self).spec_index_capacity() < indices@.len()
                && final(device).log().len() == old(device).log().len() + 2 {
                indices@.len()
            } else {
                old(self).spec_index_capacity()
            },
    {
        let ghost log0 = device.log();
        let ghost cap0 = self.spec_index_capacity();
        let ghost grow: Seq<Request<H, V>> = if cap0 >= indices@.len() {
            Seq::empty()
        } else {
            seq![Request::CreateIndexBuffer { capacity: indices@.len() as usize }]
        };
        let ghost update = seq![Request::<H, V>::UpdateIndexBuffer { indices: indices@ }];
        proof {
            lemma_ran_nothing(log0);
        }
        if let Some(capacity) = grown_capacity(self.index_capacity, indices.len()) {
            let made = device.create_index_buffer::<O>(capacity);
            proof {
                lemma_ran_one(log0, Entry { request: grow[0], outcome: made });
                assert(seq![grow[0]] =~= grow);
            }
            if let Err(e) = made {
                proof {
                    lemma_ran_stopped(log0, device.log(), grow, update, e);
                }
                return Err(e);
            }
            self.index_capacity = capacity;
        }
        let ghost mid = device.log();
        let r = device.update_index_buffer::<O>(indices);
        proof {
            lemma_ran_one(mid, Entry { request: update[0], outcome: r });
            assert(seq![update[0]] =~= update);
            lemma_ran_then(log0, mid, device.log(), grow, update, r);
        }
        r
    }

    /// Draws one draw list: its vertex upload, its index upload, then one draw per entry
    /// of [`DrawList::draw_calls`], in order, with the texture that [`Renderer::texture`]
    /// gives for it; the first failure ends the list. Together these are [`list_plan`].
    fn render_draw_list<V, B: RenderBackend<H, O, V>>(
        &mut self,
        device: &mut Device<H, V, B>,
        list: &DrawList<V>,
        fb_width: u16,
        fb_height: u16,
    ) -> (r: Result<(), RendererError>)
        requires
            old(self).wf(),
            forall|j: int|
                0 <= j < list.commands().len() ==> old(self).registry()@.contains_key(
                    #[trigger] list.commands()[j].texture_id.0,
                ),
        ensures
            final(self).registry() == old(self).registry(),
            final(self).spec_target() == old(self).spec_target(),
            ran(
                old(device).log(),
                final(device).log(),
                list_plan(
                    old(self).spec_vertex_capacity(),
                    old(self).spec_index_capacity(),
                    old(self).registry(),
                    *list,
                    fb_width,
                    fb_height,
                ),
                r,
            ),
            final(self).spec_vertex_capacity() == old(self).spec_vertex_capacity()
                || final(self).spec_vertex_capacity() == list.vertices().len() > old(
                self,
            ).spec_vertex_capacity(),
            final(self).spec_index_capacity() == old(self).spec_index_capacity()
                || final(self).spec_index_capacity() == list.indices().len() > old(
                self,
            ).spec_index_capacity(),
            r is Ok ==> final(self).spec_vertex_capacity() == if old(self).spec_vertex_capacity()
                >= list.vertices().len() {
                old(self).spec_vertex_capacity()
            } else {
                list.vertices().len()
            },
            r is Ok ==> final(self).spec_index_capacity() == if old(self).spec_index_capacity()
                >= list.indices().len() {
                old(self).spec_index_capacity()
            } else {
                list.indices().len()
            },
    {
        let ghost log0 = device.log();
        let ghost vplan = vertex_upload_plan::<H, V>(self.spec_vertex_capacity(), list.vertices());
        let ghost iplan = index_upload_plan::<H, V>(self.spec_index_capacity(), list.indices());
        let ghost dplan = draw_plan::<H, V>(self.registry(), *list, fb_width, fb_height);
        let uploaded = self.upload_vertex_buffer(device, list.vtx_buffer());
        if let Err(e) = uploaded {
            proof {
                lemma_ran_stopped(log0, device.log(), vplan, iplan + dplan, e);
            }
            return Err(e);
        }
        let ghost log1 = device.log();
        let uploaded = self.upload_index_buffer(device, list.idx_buffer());
        if let Err(e) = uploaded {
            proof {
                lemma_ran_stopped(log1, device.log(), iplan, dplan, e);
                lemma_ran_then(log0, log1, device.log(), vplan, iplan + dplan, Err(e));
            }
            return Err(e);
        }
        let ghost log2 = device.log();
        let calls = list.draw_calls(fb_width, fb_height);
        let ghost uploaded_self = *self;
        proof {
            lemma_ran_nothing(log2);
            assert(dplan.take(0) =~= Seq::<Request<H, V>>::empty());
        }
        let mut j: usize = 0;
        while j < calls.len()
            invariant
                j <= calls@.len(),
                calls@.len() == list.commands().len(),
                forall|i: int|
                    0 <= i < calls@.len() ==> #[trigger] calls@[i] == draw_call_spec(
                        list.commands(),
                        i,
                        fb_width,
                        fb_height,
                    ),
                forall|i: int|
                    0 <= i < list.commands().len() ==> self.registry()@.contains_key(
                        #[trigger] list.commands()[i].texture_id.0,
                    ),
                dplan == draw_plan::<H, V>(self.registry(), *list, fb_width, fb_height),
                vplan == vertex_upload_plan::<H, V>(old(self).spec_vertex_capacity(), list.vertices()),
                iplan == index_upload_plan::<H, V>(old(self).spec_index_capacity(), list.indices()),
                log0 == old(device).log(),
                dplan.len() == calls@.len(),
                ran(log2, device.log(), dplan.take(j as int), Ok(())),
                ran(log0, log1, vplan, Ok(())),
                ran(log1, log2, iplan, Ok(())),
                *self == uploaded_self,
                self.wf(),
                uploaded_self.registry() == old(self).registry(),
                uploaded_self.spec_target() == old(self).spec_target(),
                uploaded_self.spec_vertex_capacity() == if old(self).spec_vertex_capacity()
                    >= list.vertices().len() {
                    old(self).spec_vertex_capacity()
                } else {
                    list.vertices().len()
                },
                uploaded_self.spec_index_capacity() == if old(self).spec_index_capacity()
                    >= list.indices().len() {
                    old(self).spec_index_capacity()
                } else {
                    list.indices().len()
                },
            decreases calls@.len() - j,
        {
            let call: DrawCall = calls[j];
            let texture = match self.texture(call.texture_id) {
                Some(t) => t,
                None => return Err(RendererError::UnknownTexture(call.texture_id)),
            };
            let ghost before = device.log();
            let drawn = device.draw::<O>(&self.target, texture.handle(), call.range, call.scissor);
            proof {
                assert(dplan[j as int] == Request::<H, V>::Draw {
                    texture: self.registry()@[call.texture_id.0].spec_handle(),
                    range: call.range,
                    scissor: call.scissor,
                });
                lemma_ran_one(before, Entry { request: dplan[j as int], outcome: drawn });
                assert(dplan.subrange(j as int, j as int + 1) =~= seq![dplan[j as int]]);
                lemma_ran_continue(log2, before, device.log(), dplan, j as int, 1, drawn);
            }
            if let Err(e) = drawn {
                proof {
                    lemma_ran_then(log1, log2, device.log(), iplan, dplan, Err(e));
                    lemma_ran_then(log0, log1, device.log(), vplan, iplan + dplan, Err(e));
                }
                return Err(e);
            }
            j = j + 1;
        }
        proof {
            assert(dplan.take(dplan.len() as int) =~= dplan);
            lemma_ran_then(log1, log2, device.log(), iplan, dplan, Ok(()));
            lemma_ran_then(log0, log1, device.log(), vplan, iplan + dplan, Ok(()));
        }
        Ok(())
    }

    /// Renders one frame.
    ///
    /// A frame without area (a minimized window), or one whose commands name a texture
    /// that is not registered, is settled before anything is asked of the device: the
    /// first returns `Ok`, the second is refused. Otherwise the device is asked for
    /// [`frame_plan`]: each draw list in turn, as [`list_plan`] says, up to the first
    /// failure, which ends the frame and is handed back. Whatever happens, the buffers
    /// never shrink, and they grow no larger than the largest draw list needs.
    pub fn render<V, B: RenderBackend<H, O, V>>(&mut self, device: &mut Device<H, V, B>, draw_data: &DrawData<V>) -> (r:
        Result<(), RendererError>)
        requires
            old(self).wf(),
        ensures
            final(self).wf(),
            final(self).registry() == old(self).registry(),
            final(self).spec_target() == old(self).spec_target(),
            old(self).spec_vertex_capacity() <= final(self).spec_vertex_capacity() <= capacity_need(
                old(self).spec_vertex_capacity(),
                vertex_counts(draw_data.draw_lists@),
            ),
            old(self).spec_index_capacity() <= final(self).spec_index_capacity() <= capacity_need(
                old(self).spec_index_capacity(),
                index_counts(draw_data.draw_lists@),
            ),
            !draw_data.size.spec_has_area() ==> r is Ok && *final(self) == *old(self) && *final(device)
                == *old(device),
            draw_data.draw_lists@.len() == 0 ==> r is Ok && *final(self) == *old(self) && *final(device)
                == *old(device),
            draw_data.size.spec_has_area() && !textures_live(old(self).registry(), draw_data.draw_lists@)
                ==> *final(self) == *old(self) && *final(device) == *old(device) && (r matches Err(
                RendererError::UnknownTexture(id),
            ) && !old(self).registry()@.contains_key(id.0)),
            draw_data.size.spec_has_area() && textures_live(old(self).registry(), draw_data.draw_lists@)
                ==> ran(
                old(device).log(),
                final(device).log(),
                frame_plan(
                    old(self).spec_vertex_capacity(),
                    old(self).spec_index_capacity(),
                    old(self).registry(),
                    draw_data.draw_lists@,
                    draw_data.size.fb_width,
                    draw_data.size.fb_height,
                ),
                r,
            ),
            draw_data.size.spec_has_area() && r is Ok ==> {
                &&& textures_live(old(self).registry(), draw_data.draw_lists@)
                &&& final(self).spec_vertex_capacity() == capacity_need(
                    old(self).spec_vertex_capacity(),
                    vertex_counts(draw_data.draw_lists@),
                )
                &&& final(self).spec_index_capacity() == capacity_need(
                    old(self).spec_index_capacity(),
                    index_counts(draw_data.draw_lists@),
                )
            },
    {
        let ghost lists = draw_data.draw_lists@;
        let ghost vcounts = vertex_counts(lists);
        let ghost icounts = index_counts(lists);
        let ghost vcap0 = self.spec_vertex_capacity();
        let ghost icap0 = self.spec_index_capacity();
        let ghost reg0 = self.registry();
        let ghost log0 = device.log();
        let ghost fbw = draw_data.size.fb_width;
        let ghost fbh = draw_data.size.fb_height;
        proof {
            lemma_capacity_need_monotone(vcap0, vcounts, 0, lists.len() as int);
            lemma_capacity_need_monotone(icap0, icounts, 0, lists.len() as int);
            assert(vcounts.take(lists.len() as int) =~= vcounts);
            assert(icounts.take(lists.len() as int) =~= icounts);
            assert(lists.take(lists.len() as int) =~= lists);
            assert(lists.take(0) =~= Seq::<DrawList<V>>::empty());
            lemma_ran_nothing(log0);
        }
        if !draw_data.size.has_area() {
            return Ok(());
        }
        if let Some(id) = self.find_unknown_texture(&draw_data.draw_lists) {
            return Err(RendererError::UnknownTexture(id));
        }
        let fb_width = draw_data.size.fb_width;
        let fb_height = draw_data.size.fb_height;
        let mut i: usize = 0;
        while i < draw_data.draw_lists.len()
            invariant
                i <= lists.len(),
                lists == draw_data.draw_lists@,
                vcounts == vertex_counts(lists),
                icounts == index_counts(lists),
                vcounts.take(lists.len() as int) == vcounts,
                icounts.take(lists.len() as int) == icounts,
                lists.take(lists.len() as int) == lists,
                draw_data.size.spec_has_area(),
                fb_width == fbw,
                fb_height == fbh,
                fbw == draw_data.size.fb_width,
                fbh == draw_data.size.fb_height,
                textures_live(old(self).registry(), lists),
                lists.len() == 0 ==> *self == *old(self) && *device == *old(device),
                self.wf(),
                self.registry() == old(self).registry(),
                reg0 == old(self).registry(),
                self.spec_target() == old(self).spec_target(),
                vcap0 == old(self).spec_vertex_capacity(),
                icap0 == old(self).spec_index_capacity(),
                log0 == old(device).log(),
                self.spec_vertex_capacity() == capacity_need(vcap0, vcounts.take(i as int)),
                self.spec_index_capacity() == capacity_need(icap0, icounts.take(i as int)),
                ran(log0, device.log(), frame_plan(vcap0, icap0, reg0, lists.take(i as int), fbw, fbh), Ok(())),
            decreases lists.len() - i,
        {
            let ghost before = device.log();
            proof {
                lemma_capacity_need_step(vcap0, vcounts, i as int);
                lemma_capacity_need_step(icap0, icounts, i as int);
                lemma_capacity_need_monotone(vcap0, vcounts, i as int, i as int + 1);
                lemma_capacity_need_monotone(icap0, icounts, i as int, i as int + 1);
                lemma_capacity_need_monotone(vcap0, vcounts, i as int + 1, lists.len() as int);
                lemma_capacity_need_monotone(icap0, icounts, i as int + 1, lists.len() as int);
                assert(vcounts[i as int] == lists[i as int].vertices().len());
                assert(icounts[i as int] == lists[i as int].indices().len());
                assert(lists.take(i as int + 1).drop_last() =~= lists.take(i as int));
                assert(vertex_counts(lists.take(i as int)) =~= vcounts.take(i as int));
                assert(index_counts(lists.take(i as int)) =~= icounts.take(i as int));
                assert(lists.take(i as int + 1).last() == lists[i as int]);
                assert forall|j: int| 0 <= j < lists[i as int].commands().len() implies self.registry()@.contains_key(
                    #[trigger] lists[i as int].commands()[j].texture_id.0,
                ) by {
                    assert(lists[i as int].commands()[j].texture_id.0 == lists[i as int].commands()[j].texture_id.0);
                }
            }
            let drawn = self.render_draw_list(device, &draw_data.draw_lists[i], fb_width, fb_height);
            proof {
                lemma_ran_then(
                    log0,
                    before,
                    device.log(),
                    frame_plan(vcap0, icap0, reg0, lists.take(i as int), fbw, fbh),
                    list_plan(
                        capacity_need(vcap0, vcounts.take(i as int)),
                        capacity_need(icap0, icounts.take(i as int)),
                        reg0,
                        lists[i as int],
                        fbw,
                        fbh,
                    ),
                    drawn,
                );
            }
            if let Err(e) = drawn {
                proof {
                    let p = frame_plan(vcap0, icap0, reg0, lists.take(i as int + 1), fbw, fbh);
                    let whole = frame_plan(vcap0, icap0, reg0, lists, fbw, fbh);
                    lemma_frame_plan_prefix(vcap0, icap0, reg0, lists, fbw, fbh, i as int + 1, lists.len() as int);
                    lemma_ran_stopped(log0, device.log(), p, whole.skip(p.len() as int), e);
                    assert(p + whole.skip(p.len() as int) =~= whole);
                }
                return Err(e);
            }
            i = i + 1;
        }
        Ok(())
    }
}

} // verus!
