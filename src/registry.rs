//! Texture identities and the registry that maps them to owned textures.
use vstd::prelude::*;

verus! {

/// The identity under which the font atlas is always registered.
pub const FONT_ATLAS_ID: usize = 0;

/// An opaque, copyable token naming one texture of a [`TextureRegistry`].
///
/// The GUI core stores it as a pointer-sized integer and hands it back unchanged in
/// its draw commands; the registry turns it back into the texture.
#[derive(Clone, Copy, Debug, PartialEq, Eq, Hash, Structural)]
pub struct TextureId(pub usize);

impl TextureId {
    /// The identity of the font atlas.
    pub fn font_atlas() -> (r: TextureId)
        ensures
            r.0 == FONT_ATLAS_ID,
    {
        TextureId(FONT_ATLAS_ID)
    }

    /// Whether this identity names the font atlas.
    pub fn is_font_atlas(self) -> (r: bool)
        ensures
            r == (self.0 == FONT_ATLAS_ID),
    {
        self.0 == FONT_ATLAS_ID
    }
}

/// An arena of textures keyed by [`TextureId`].
///
/// Identities are handed out in increasing order and never reused, so an identity
/// whose texture has been unregistered resolves to nothing instead of to another
/// texture. Identity `0` holds the font atlas for the registry's whole life.
pub struct TextureRegistry<T> {
    slots: Vec<Option<T>>,
}

impl<T> View for TextureRegistry<T> {
    type V = Map<usize, T>;

    /// The live textures, by identity.
    closed spec fn view(&self) -> Map<usize, T> {
        Map::new(
            |k: usize| (k as int) < self.slots@.len() && self.slots@[k as int] is Some,
            |k: usize| self.slots@[k as int].unwrap(),
        )
    }
}

impl<T> TextureRegistry<T> {
    /// How many identities have been handed out, the font atlas's included.
    pub closed spec fn issued(&self) -> nat {
        self.slots@.len()
    }

    /// The font atlas is live, and every live identity has been handed out.
    pub open spec fn wf(&self) -> bool {
        &&& self@.contains_key(FONT_ATLAS_ID)
        &&& forall|k: usize| #[trigger] self@.contains_key(k) ==> (k as nat) < self.issued()
    }

    /// What `id` resolves to.
    pub open spec fn lookup(&self, id: TextureId) -> Option<T> {
        if self@.contains_key(id.0) {
            Some(self@[id.0])
        } else {
            None
        }
    }

    /// `after` is `before` with `texture` added under the fresh identity `id`.
    pub open spec fn registered(before: Self, after: Self, texture: T, id: TextureId) -> bool {
        &&& after.wf()
        &&& id.0 as nat == before.issued()
        &&& after.issued() == before.issued() + 1
        &&& after@ == before@.insert(id.0, texture)
    }

    /// No identity handed out by `before` names another texture in `after` than it
    /// did in `before`: a live one keeps its texture or is gone, a dead one stays dead.
    pub open spec fn keeps_entries(before: Self, after: Self) -> bool {
        &&& before.issued() <= after.issued()
        &&& forall|k: usize|
            (k as nat) < before.issued() && #[trigger] after@.contains_key(k) ==> before@.contains_key(k)
                && after@[k] == before@[k]
    }

    proof fn lemma_view_of_slots(&self, k: usize)
        ensures
            self@.contains_key(k) == ((k as int) < self.slots@.len() && self.slots@[k as int] is Some),
            self@.contains_key(k) ==> self.slots@[k as int] == Some(self@[k]),
    {
    }

    /// A registry that holds the font atlas under [`FONT_ATLAS_ID`] and nothing else.
    pub fn new(font_atlas: T) -> (r: Self)
        ensures
            r.wf(),
            r@ == Map::<usize, T>::empty().insert(FONT_ATLAS_ID, font_atlas),
            r.issued() == 1,
    {
        let mut slots: Vec<Option<T>> = Vec::new();
        slots.push(Some(font_atlas));
        let r = TextureRegistry { slots };
        assert(r@ =~= Map::<usize, T>::empty().insert(FONT_ATLAS_ID, font_atlas));
        r
    }

    /// Adds `texture` under a fresh identity, which it returns.
    pub fn register(&mut self, texture: T) -> (id: TextureId)
        requires
            old(self).wf(),
        ensures
            Self::registered(*old(self), *final(self), texture, id),
            Self::keeps_entries(*old(self), *final(self)),
    {
        let id = TextureId(self.slots.len());
        self.slots.push(Some(texture));
        assert(self@ =~= old(self)@.insert(id.0, texture));
        id
    }

    /// Removes the texture named by `id` and hands it back. The font atlas cannot be
    /// removed: for its identity, as for one that names nothing, this returns `None`.
    pub fn unregister(&mut self, id: TextureId) -> (r: Option<T>)
        requires
            old(self).wf(),
        ensures
            final(self).wf(),
            final(self).issued() == old(self).issued(),
            Self::keeps_entries(*old(self), *final(self)),
            if id.0 != FONT_ATLAS_ID && old(self)@.contains_key(id.0) {
                r == Some(old(self)@[id.0]) && final(self)@ == old(self)@.remove(id.0)
            } else {
                r is None && final(self)@ == old(self)@
            },
    {
        if id.0 != FONT_ATLAS_ID && id.0 < self.slots.len() {
            let r = self.slots[id.0].take();
            assert(self@ =~= old(self)@.remove(id.0));
            r
        } else {
            proof {
                if id.0 != FONT_ATLAS_ID {
                    old(self).lemma_view_of_slots(id.0);
                }
            }
            None
        }
    }

    /// Whether `id` names a live texture.
    pub fn contains(&self, id: TextureId) -> (r: bool)
        ensures
            r == self@.contains_key(id.0),
    {
        id.0 < self.slots.len() && self.slots[id.0].is_some()
    }

    /// The texture named by `id`, if it is live.
    pub fn resolve(&self, id: TextureId) -> (r: Option<&T>)
        ensures
            match r {
                Some(t) => self.lookup(id) == Some(*t),
                None => self.lookup(id) is None,
            },
    {
        if id.0 < self.slots.len() {
            proof {
                self.lemma_view_of_slots(id.0);
            }
            self.slots[id.0].as_ref()
        } else {
            None
        }
    }

    /// The font atlas.
    pub fn font_atlas(&self) -> (r: &T)
        requires
            self.wf(),
        ensures
            *r == self@[FONT_ATLAS_ID],
    {
        proof {
            self.lemma_view_of_slots(FONT_ATLAS_ID);
        }
        self.slots[FONT_ATLAS_ID].as_ref().unwrap()
    }
}

/// Resolving the identity that a registration handed out gives back the registered
/// texture, in every later state of the registry in which that identity is still live.
pub proof fn lemma_identity_round_trip<T>(
    before: TextureRegistry<T>,
    registered: TextureRegistry<T>,
    later: TextureRegistry<T>,
    texture: T,
    id: TextureId,
)
    requires
        TextureRegistry::registered(before, registered, texture, id),
        TextureRegistry::keeps_entries(registered, later),
        later@.contains_key(id.0),
    ensures
        registered.lookup(id) == Some(texture),
        later.lookup(id) == Some(texture),
{
}

/// What each operation of the registry keeps, its sequences keep too.
pub proof fn lemma_keeps_entries_transitive<T>(
    a: TextureRegistry<T>,
    b: TextureRegistry<T>,
    c: TextureRegistry<T>,
)
    requires
        TextureRegistry::keeps_entries(a, b),
        TextureRegistry::keeps_entries(b, c),
    ensures
        TextureRegistry::keeps_entries(a, c),
{
}

/// A registration hands out an identity that is not the font atlas's and names no
/// live texture; the textures already live, the font atlas among them, keep their
/// identities.
pub proof fn lemma_handle_uniqueness<T>(
    before: TextureRegistry<T>,
    after: TextureRegistry<T>,
    texture: T,
    id: TextureId,
)
    requires
        before.wf(),
        TextureRegistry::registered(before, after, texture, id),
    ensures
        id.0 != FONT_ATLAS_ID,
        !before@.contains_key(id.0),
        forall|k: usize| #[trigger] before@.contains_key(k) ==> after@.contains_key(k) && after@[k] == before@[k],
        after@.contains_key(FONT_ATLAS_ID),
        after@[FONT_ATLAS_ID] == before@[FONT_ATLAS_ID],
{
}

/// The font atlas stays the texture under identity `0` through any sequence of
/// registrations and unregistrations.
pub proof fn lemma_font_atlas_stays<T>(before: TextureRegistry<T>, after: TextureRegistry<T>)
    requires
        before.wf(),
        after.wf(),
        TextureRegistry::keeps_entries(before, after),
    ensures
        after.lookup(TextureId(FONT_ATLAS_ID)) == before.lookup(TextureId(FONT_ATLAS_ID)),
        after.lookup(TextureId(FONT_ATLAS_ID)) is Some,
{
}

/// Identities are never reused: a registration made in any later state hands out
/// another identity than an earlier one did, even after the earlier texture is gone.
pub proof fn lemma_identity_never_reused<T>(
    first_before: TextureRegistry<T>,
    first_after: TextureRegistry<T>,
    second_before: TextureRegistry<T>,
    second_after: TextureRegistry<T>,
    first: T,
    second: T,
    first_id: TextureId,
    second_id: TextureId,
)
    requires
        TextureRegistry::registered(first_before, first_after, first, first_id),
        TextureRegistry::keeps_entries(first_after, second_before),
        TextureRegistry::registered(second_before, second_after, second, second_id),
    ensures
        first_id != second_id,
{
}

} // verus!
