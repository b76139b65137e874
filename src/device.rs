//! The GPU as the library sees it: a backend that carries out requests, and a record of
//! every request made of it and how each one turned out.
use vstd::prelude::*;

use crate::draw::IndexRange;
use crate::error::RendererError;
use crate::scissor::Scissor;
use crate::texture::TextureFactory;

verus! {

/// The GPU work that a [`crate::Renderer`] asks for, on textures of type `H`, render
/// targets of type `O` and vertices of type `V`. One implementation per graphics API;
/// each call reports the API's failure as a [`RendererError`].
pub trait RenderBackend<H, O, V>: TextureFactory<H> {
    /// Compiles the two shaders and builds the pipeline that draws with them.
    fn create_pipeline(&mut self, vertex_shader: &[u8], fragment_shader: &[u8]) -> Result<(), RendererError>;

    /// Replaces the vertex buffer by one that holds `capacity` vertices.
    fn create_vertex_buffer(&mut self, capacity: usize) -> Result<(), RendererError>;

    /// Replaces the index buffer by one that holds `capacity` indices, and draws from it
    /// from then on.
    fn create_index_buffer(&mut self, capacity: usize) -> Result<(), RendererError>;

    /// Writes `vertices` at the start of the vertex buffer.
    fn update_vertex_buffer(&mut self, vertices: &[V]) -> Result<(), RendererError>;

    /// Writes `indices` at the start of the index buffer.
    fn update_index_buffer(&mut self, indices: &[u16]) -> Result<(), RendererError>;

    /// Draws the indices in `range` into `target`, sampling `texture`, inside `scissor`.
    fn draw(&mut self, target: &O, texture: &H, range: IndexRange, scissor: Scissor) -> Result<
        (),
        RendererError,
    >;
}

/// One request made of a backend, with what was handed to it.
pub enum Request<H, V> {
    CreatePipeline { vertex_shader: Seq<u8>, fragment_shader: Seq<u8> },
    CreateVertexBuffer { capacity: usize },
    CreateIndexBuffer { capacity: usize },
    CreateTexture { width: u32, height: u32, rgba: Seq<u8> },
    UpdateVertexBuffer { vertices: Seq<V> },
    UpdateIndexBuffer { indices: Seq<u16> },
    Draw { texture: H, range: IndexRange, scissor: Scissor },
}

/// A request made of a backend and how it turned out.
pub struct Entry<H, V> {
    pub request: Request<H, V>,
    pub outcome: Result<(), RendererError>,
}

/// Success or the error of `r`, whatever a success carries.
pub open spec fn outcome_of<T>(r: Result<T, RendererError>) -> Result<(), RendererError> {
    match r {
        Ok(_) => Ok(()),
        Err(e) => Err(e),
    }
}

/// Both succeeded, or both failed with the same error.
pub open spec fn same_outcome(a: Result<(), RendererError>, b: Result<(), RendererError>) -> bool {
    match (a, b) {
        (Ok(_), Ok(_)) => true,
        (Err(x), Err(y)) => x == y,
        _ => false,
    }
}

/// `entries` are `plan` carried out in order up to the first failure, which ends it:
/// every entry but the last succeeded, the last one turned out as `outcome`, an `Ok`
/// outcome means the whole plan was carried out, and an error came from a request.
pub open spec fn carried_out<H, V>(
    entries: Seq<Entry<H, V>>,
    plan: Seq<Request<H, V>>,
    outcome: Result<(), RendererError>,
) -> bool {
    &&& entries.len() <= plan.len()
    &&& forall|k: int|
        0 <= k < entries.len() ==> #[trigger] entries[k].request == plan[k] && (k < entries.len() - 1
            ==> entries[k].outcome is Ok)
    &&& entries.len() > 0 ==> same_outcome(entries.last().outcome, outcome)
    &&& outcome is Ok ==> entries.len() == plan.len()
    &&& outcome is Err ==> entries.len() > 0
}

/// The record went from `before` to `after` by carrying out `plan` with `outcome`.
pub open spec fn ran<H, V>(
    before: Seq<Entry<H, V>>,
    after: Seq<Entry<H, V>>,
    plan: Seq<Request<H, V>>,
    outcome: Result<(), RendererError>,
) -> bool {
    &&& before.len() <= after.len()
    &&& after.take(before.len() as int) == before
    &&& carried_out(after.skip(before.len() as int), plan, outcome)
}

/// Nothing planned, nothing done.
pub proof fn lemma_ran_nothing<H, V>(log: Seq<Entry<H, V>>)
    ensures
        ran(log, log, Seq::empty(), Ok(())),
{
    assert(log.take(log.len() as int) =~= log);
    assert(log.skip(log.len() as int) =~= Seq::<Entry<H, V>>::empty());
}

/// One request, recorded with its outcome.
pub proof fn lemma_ran_one<H, V>(log: Seq<Entry<H, V>>, entry: Entry<H, V>)
    ensures
        ran(log, log.push(entry), seq![entry.request], entry.outcome),
{
    assert(log.push(entry).take(log.len() as int) =~= log);
    assert(log.push(entry).skip(log.len() as int) =~= seq![entry]);
}

/// A plan carried out in full, followed by another, is their concatenation.
pub proof fn lemma_ran_then<H, V>(
    a: Seq<Entry<H, V>>,
    b: Seq<Entry<H, V>>,
    c: Seq<Entry<H, V>>,
    p: Seq<Request<H, V>>,
    q: Seq<Request<H, V>>,
    outcome: Result<(), RendererError>,
)
    requires
        ran(a, b, p, Ok(())),
        ran(b, c, q, outcome),
    ensures
        ran(a, c, p + q, outcome),
{
    let s1 = b.skip(a.len() as int);
    let s2 = c.skip(b.len() as int);
    assert(c.take(a.len() as int) =~= b.take(a.len() as int));
    assert(c.skip(a.len() as int) =~= s1 + s2);
    let s = s1 + s2;
    assert forall|k: int| 0 <= k < s.len() implies #[trigger] s[k].request == (p + q)[k] && (k < s.len() - 1
        ==> s[k].outcome is Ok) by {
        if k < s1.len() {
            assert(s[k] == s1[k]);
            if k == s1.len() - 1 {
                assert(s1.last() == s1[k]);
            }
        } else {
            assert(s[k] == s2[k - s1.len()]);
        }
    }
    if s2.len() > 0 {
        assert(s.last() == s2.last());
    } else if s1.len() > 0 {
        assert(s.last() == s1.last());
    }
    assert(s1.len() == p.len());
    assert(c.take(a.len() as int) =~= a);
}

/// A plan that failed part way is a failed start of any longer plan.
pub proof fn lemma_ran_stopped<H, V>(
    a: Seq<Entry<H, V>>,
    b: Seq<Entry<H, V>>,
    p: Seq<Request<H, V>>,
    q: Seq<Request<H, V>>,
    e: RendererError,
)
    requires
        ran(a, b, p, Err(e)),
    ensures
        ran(a, b, p + q, Err(e)),
{
    let s = b.skip(a.len() as int);
    assert forall|k: int| 0 <= k < s.len() implies #[trigger] s[k].request == (p + q)[k] && (k < s.len() - 1
        ==> s[k].outcome is Ok) by {
        assert(s[k].request == p[k]);
    }
}

/// Carrying out the next `n` requests of `plan` after its first `k` extends what was
/// carried out; a failure among them is a failed run of the whole plan.
pub proof fn lemma_ran_continue<H, V>(
    a: Seq<Entry<H, V>>,
    b: Seq<Entry<H, V>>,
    c: Seq<Entry<H, V>>,
    plan: Seq<Request<H, V>>,
    k: int,
    n: int,
    outcome: Result<(), RendererError>,
)
    requires
        0 <= k <= k + n <= plan.len(),
        ran(a, b, plan.take(k), Ok(())),
        ran(b, c, plan.subrange(k, k + n), outcome),
    ensures
        ran(a, c, plan.take(k + n), outcome),
        outcome is Err ==> ran(a, c, plan, outcome),
{
    lemma_ran_then(a, b, c, plan.take(k), plan.subrange(k, k + n), outcome);
    assert(plan.take(k) + plan.subrange(k, k + n) =~= plan.take(k + n));
    if let Err(e) = outcome {
        lemma_ran_stopped(a, c, plan.take(k + n), plan.skip(k + n), e);
        assert(plan.take(k + n) + plan.skip(k + n) =~= plan);
    }
}

/// A backend together with the record of every request made of it through this device.
pub struct Device<H, V, B> {
    backend: B,
    log: Ghost<Seq<Entry<H, V>>>,
}

impl<H, V, B> Device<H, V, B> {
    /// The requests made so far, in order, with their outcomes.
    pub closed spec fn log(&self) -> Seq<Entry<H, V>> {
        self.log@
    }

    /// A device with nothing asked of it yet.
    pub fn new(backend: B) -> (r: Self)
        ensures
            r.log() == Seq::<Entry<H, V>>::empty(),
    {
        Device { backend, log: Ghost(Seq::empty()) }
    }

    /// The backend.
    pub fn backend(&self) -> &B {
        &self.backend
    }

    /// The backend, to be set up or inspected; nothing it does through this is recorded.
    pub fn backend_mut(&mut self) -> (r: &mut B)
        ensures
            final(self).log() == old(self).log(),
    {
        &mut self.backend
    }

    /// Gives the backend back.
    pub fn into_backend(self) -> B {
        self.backend
    }

    pub fn create_texture(&mut self, width: u32, height: u32, rgba: &[u8]) -> (r: Result<H, RendererError>) where
        B: TextureFactory<H>,

        ensures
            final(self).log() == old(self).log().push(
                Entry { request: Request::CreateTexture { width, height, rgba: rgba@ }, outcome: outcome_of(r) },
            ),
    {
        let r = self.backend.create_texture(width, height, rgba);
        self.log = Ghost(
            self.log@.push(
                Entry { request: Request::CreateTexture { width, height, rgba: rgba@ }, outcome: outcome_of(r) },
            ),
        );
        r
    }

    pub fn create_pipeline<O>(&mut self, vertex_shader: &[u8], fragment_shader: &[u8]) -> (r: Result<
        (),
        RendererError,
    >) where B: RenderBackend<H, O, V>,

        ensures
            final(self).log() == old(self).log().push(
                Entry {
                    request: Request::CreatePipeline {
                        vertex_shader: vertex_shader@,
                        fragment_shader: fragment_shader@,
                    },
                    outcome: r,
                },
            ),
    {
        let r = self.backend.create_pipeline(vertex_shader, fragment_shader);
        self.log = Ghost(
            self.log@.push(
                Entry {
                    request: Request::CreatePipeline {
                        vertex_shader: vertex_shader@,
                        fragment_shader: fragment_shader@,
                    },
                    outcome: r,
                },
            ),
        );
        r
    }

    pub fn create_vertex_buffer<O>(&mut self, capacity: usize) -> (r: Result<(), RendererError>) where
        B: RenderBackend<H, O, V>,

        ensures
            final(self).log() == old(self).log().push(
                Entry { request: Request::CreateVertexBuffer { capacity }, outcome: r },
            ),
    {
        let r = self.backend.create_vertex_buffer(capacity);
        self.log = Ghost(self.log@.push(Entry { request: Request::CreateVertexBuffer { capacity }, outcome: r }));
        r
    }

    pub fn create_index_buffer<O>(&mut self, capacity: usize) -> (r: Result<(), RendererError>) where
        B: RenderBackend<H, O, V>,

        ensures
            final(self).log() == old(self).log().push(
                Entry { request: Request::CreateIndexBuffer { capacity }, outcome: r },
            ),
    {
        let r = self.backend.create_index_buffer(capacity);
        self.log = Ghost(self.log@.push(Entry { request: Request::CreateIndexBuffer { capacity }, outcome: r }));
        r
    }

    pub fn update_vertex_buffer<O>(&mut self, vertices: &[V]) -> (r: Result<(), RendererError>) where
        B: RenderBackend<H, O, V>,

        ensures
            final(self).log() == old(self).log().push(
                Entry { request: Request::UpdateVertexBuffer { vertices: vertices@ }, outcome: r },
            ),
    {
        let r = self.backend.update_vertex_buffer(vertices);
        self.log = Ghost(
            self.log@.push(Entry { request: Request::UpdateVertexBuffer { vertices: vertices@ }, outcome: r }),
        );
        r
    }

    pub fn update_index_buffer<O>(&mut self, indices: &[u16]) -> (r: Result<(), RendererError>) where
        B: RenderBackend<H, O, V>,

        ensures
            final(self).log() == old(self).log().push(
                Entry { request: Request::UpdateIndexBuffer { indices: indices@ }, outcome: r },
            ),
    {
        let r = self.backend.update_index_buffer(indices);
        self.log = Ghost(
            self.log@.push(Entry { request: Request::UpdateIndexBuffer { indices: indices@ }, outcome: r }),
        );
        r
    }

    pub fn draw<O>(&mut self, target: &O, texture: &H, range: IndexRange, scissor: Scissor) -> (r: Result<
        (),
        RendererError,
    >) where B: RenderBackend<H, O, V>,

        ensures
            final(self).log() == old(self).log().push(
                Entry { request: Request::Draw { texture: *texture, range, scissor }, outcome: r },
            ),
    {
        let r = self.backend.draw(target, texture, range, scissor);
        self.log = Ghost(
            self.log@.push(Entry { request: Request::Draw { texture: *texture, range, scissor }, outcome: r }),
        );
        r
    }
}

} // verus!
