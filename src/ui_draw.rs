use vstd::prelude::*;

use crate::registry::{
    inserted, lemma_insert_effect, lemma_remove_effect, lemma_retired_never_resolves, lookup,
    removed, resolves, Handle, HandleRegistry, Slot,
};
use crate::scissor::{scissor_for, scissor_of, ClipRect, Scissor, Size};

verus! {

/// Texture a mesh samples from: the built-in font/atlas texture, or one that the user
/// registered with [`UiDrawSystem::register_texture`].
#[derive(Clone, Copy, PartialEq, Eq, Structural, Debug)]
pub enum TextureId {
    BuiltinAtlas,
    UserRegistered(Handle),
}

/// Raw 64-bit form of a user-texture handle: generation in the high 32 bits, slot index in
/// the low 32 bits. Defined when both fit in 32 bits.
pub open spec fn raw_of(h: Handle) -> u64 {
    (h.generation * 4294967296 + h.index) as u64
}

pub open spec fn encodable(h: Handle) -> bool {
    h.index < 4294967296 && h.generation < 4294967296
}

pub open spec fn handle_of(raw: u64) -> Handle {
    Handle { index: (raw % 4294967296) as usize, generation: raw / 4294967296 }
}

/// Encodes a user-texture handle as a raw integer for a UI layer that keys textures by
/// `u64`; `None` when the handle does not fit.
pub fn encode_user_texture(h: Handle) -> (r: Option<u64>)
    ensures
        match r {
            Some(raw) => encodable(h) && raw == raw_of(h) && handle_of(raw) == h,
            None => !encodable(h),
        },
{
    if (h.index as u64) < 4294967296 && h.generation < 4294967296 {
        let raw = h.generation * 4294967296 + h.index as u64;
        assert(raw % 4294967296 == h.index && raw / 4294967296 == h.generation) by (nonlinear_arith)
            requires
                raw == h.generation * 4294967296 + h.index,
                h.index < 4294967296,
                h.generation < 4294967296,
        ;
        Some(raw)
    } else {
        None
    }
}

/// Decodes a raw integer made by [`encode_user_texture`].
pub fn decode_user_texture(raw: u64) -> (h: Handle)
    ensures
        h == handle_of(raw),
        encodable(h),
        raw_of(h) == raw,
{
    let h = Handle { index: (raw % 4294967296) as usize, generation: raw / 4294967296 };
    assert(raw == (raw / 4294967296) * 4294967296 + raw % 4294967296) by (nonlinear_arith);
    h
}

/// What the draw system reads of one tessellated mesh.
#[derive(Clone, Copy, PartialEq, Eq, Structural, Debug)]
pub struct MeshInfo {
    pub clip: ClipRect,
    pub vertex_count: usize,
    pub index_count: u32,
    pub texture: TextureId,
}

/// One recorded draw: which mesh of the batch, where it may write, how many indices it
/// draws and which texture it samples.
#[derive(Clone, Copy, PartialEq, Eq, Structural, Debug)]
pub struct DrawCommand {
    pub mesh: usize,
    pub scissor: Scissor,
    pub index_count: u32,
    pub texture: TextureId,
}

/// What one frame asks of the caller: the RGBA contents of a new atlas image when the atlas
/// must be rebuilt (`None` when the current one stays), and the draws to record, in batch
/// order.
pub struct FramePlan {
    pub atlas_rgba: Option<Vec<u8>>,
    pub commands: Vec<DrawCommand>,
}

/// Failure to set up a draw system.
#[derive(Clone, Copy, PartialEq, Eq, Structural, Debug)]
pub enum UiDrawSystemCreationError {
    /// The queue handed in cannot run graphics work.
    QueueFamilyNotSupported,
}

/// A mesh with no vertices or no indices draws nothing and is skipped.
pub open spec fn is_drawn(m: MeshInfo) -> bool {
    m.vertex_count > 0 && m.index_count > 0
}

pub open spec fn command_of(viewport: Size, scale: u32, m: MeshInfo, i: int) -> DrawCommand {
    DrawCommand {
        mesh: i as usize,
        scissor: scissor_of(viewport, scale, m.clip),
        index_count: m.index_count,
        texture: m.texture,
    }
}

/// The draws recorded for `meshes`: one per mesh that is drawn, in batch order.
pub open spec fn planned(viewport: Size, scale: u32, meshes: Seq<MeshInfo>) -> Seq<DrawCommand>
    decreases meshes.len(),
{
    if meshes.len() == 0 {
        Seq::empty()
    } else {
        let i = meshes.len() - 1;
        let prev = planned(viewport, scale, meshes.drop_last());
        if is_drawn(meshes[i]) {
            prev.push(command_of(viewport, scale, meshes[i], i))
        } else {
            prev
        }
    }
}

/// The atlas image must be rebuilt when its version differs from the one last seen.
pub open spec fn needs_rebuild(seen: Option<u64>, version: u64) -> bool {
    seen != Some(version)
}

/// `pixels`, one coverage byte per texel, spread over four channels per texel.
pub open spec fn expanded(pixels: Seq<u8>) -> Seq<u8> {
    Seq::new(4 * pixels.len(), |i: int| pixels[i / 4])
}

/// Spreads a single-channel atlas over the four channels of an RGBA image.
pub fn expand_atlas_pixels(pixels: &Vec<u8>) -> (r: Vec<u8>)
    requires
        4 * pixels@.len() <= usize::MAX,
    ensures
        r@ == expanded(pixels@),
{
    let mut r: Vec<u8> = Vec::with_capacity(4 * pixels.len());
    let mut i: usize = 0;
    while i < pixels.len()
        invariant
            i <= pixels@.len(),
            4 * pixels@.len() <= usize::MAX,
            r@.len() == 4 * i,
            forall|k: int| 0 <= k < r@.len() ==> #[trigger] r@[k] == pixels@[k / 4],
        decreases pixels@.len() - i,
    {
        let p = pixels[i];
        r.push(p);
        r.push(p);
        r.push(p);
        r.push(p);
        i = i + 1;
    }
    assert(r@ =~= expanded(pixels@));
    r
}

/// Two frames in a row with the same atlas version: the second asks for no rebuild, so no
/// upload is counted for it.
pub proof fn lemma_unchanged_atlas_not_rebuilt<S>(
    before: UiDrawSystem<S>,
    after_first: UiDrawSystem<S>,
    version: u64,
)
    requires
        UiDrawSystem::frame_step(before, after_first, version),
    ensures
        !needs_rebuild(after_first.seen_version(), version),
        after_first.uploads() == before.uploads(),
{
}

/// Registering a texture and unregistering the same id leaves that id unresolved, also
/// after a further registration; the further registration gets an id distinct from every
/// texture still registered and leaves their sets in place.
pub proof fn lemma_register_unregister<S>(
    s0: Seq<Slot<S>>,
    s1: Seq<Slot<S>>,
    s2: Seq<Slot<S>>,
    s3: Seq<Slot<S>>,
    a: S,
    b: S,
    ha: Handle,
    hb: Handle,
    other: Handle,
)
    requires
        inserted(s0, s1, a, ha),
        removed(s1, s2, ha, lookup(s1, ha)),
        inserted(s2, s3, b, hb),
    ensures
        lookup(s2, ha) is None,
        lookup(s3, ha) is None,
        lookup(s3, hb) == Some(b),
        resolves(s2, other) ==> other != hb && lookup(s3, other) == lookup(s2, other),
{
    lemma_insert_effect(s0, s1, a, ha, ha);
    lemma_remove_effect(s1, s2, ha, lookup(s1, ha), ha);
    lemma_insert_effect(s2, s3, b, hb, ha);
    lemma_retired_never_resolves(s2, ha);
    lemma_retired_never_resolves(s3, ha);
    lemma_insert_effect(s2, s3, b, hb, other);
}

/// Per-window UI draw state: the atlas version last seen, the descriptor set of the atlas,
/// the registry of user-texture descriptor sets and a count of atlas uploads. `S` is the
/// caller's descriptor-set type.
pub struct UiDrawSystem<S> {
    texture_version: Option<u64>,
    texture_descriptor_set: Option<S>,
    user_texture_descriptor_sets: HandleRegistry<S>,
    atlas_uploads: u64,
}

impl<S> UiDrawSystem<S> {
    pub closed spec fn seen_version(&self) -> Option<u64> {
        self.texture_version
    }

    pub closed spec fn atlas_set(&self) -> Option<S> {
        self.texture_descriptor_set
    }

    pub closed spec fn user_sets(&self) -> Seq<Slot<S>> {
        self.user_texture_descriptor_sets@
    }

    pub closed spec fn uploads(&self) -> u64 {
        self.atlas_uploads
    }

    /// Whether `id` names a texture that a draw can sample.
    pub open spec fn resolves_texture(&self, id: TextureId) -> bool {
        match id {
            TextureId::BuiltinAtlas => true,
            TextureId::UserRegistered(h) => resolves(self.user_sets(), h),
        }
    }

    /// A draw system for a queue; fails unless the queue can run graphics work.
    pub fn new(queue_supports_graphics: bool) -> (r: Result<Self, UiDrawSystemCreationError>)
        ensures
            match r {
                Ok(s) => {
                    &&& queue_supports_graphics
                    &&& s.seen_version() is None
                    &&& s.atlas_set() is None
                    &&& s.user_sets() == Seq::<Slot<S>>::empty()
                    &&& s.uploads() == 0
                },
                Err(e) => !queue_supports_graphics && e == UiDrawSystemCreationError::QueueFamilyNotSupported,
            },
    {
        if !queue_supports_graphics {
            return Err(UiDrawSystemCreationError::QueueFamilyNotSupported);
        }
        Ok(UiDrawSystem {
            texture_version: None,
            texture_descriptor_set: None,
            user_texture_descriptor_sets: HandleRegistry::new(),
            atlas_uploads: 0,
        })
    }

    /// `post` is `pre` after planning a frame whose atlas has version `version`: only the
    /// version last seen changes.
    pub open spec fn frame_step(pre: Self, post: Self, version: u64) -> bool {
        &&& post.seen_version() == Some(version)
        &&& post.atlas_set() == pre.atlas_set()
        &&& post.user_sets() == pre.user_sets()
        &&& post.uploads() == pre.uploads()
    }

    /// Plans one frame: the atlas contents to upload, each coverage byte of `atlas_pixels`
    /// spread over four channels, when the atlas version differs from the one last seen;
    /// and one draw per mesh that has vertices and indices, in batch
    /// order, with its scissor. Every texture that a drawn mesh names must still be
    /// registered.
    pub fn draw(
        &mut self,
        viewport_size: Size,
        scale_factor: u32,
        meshes: &Vec<MeshInfo>,
        atlas_version: u64,
        atlas_pixels: &Vec<u8>,
    ) -> (plan: FramePlan)
        requires
            4 * atlas_pixels@.len() <= usize::MAX,
            forall|i: int|
                0 <= i < meshes@.len() && is_drawn(#[trigger] meshes@[i]) ==> old(self).resolves_texture(
                    meshes@[i].texture,
                ),
        ensures
            (plan.atlas_rgba is Some) == needs_rebuild(old(self).seen_version(), atlas_version),
            match plan.atlas_rgba {
                Some(rgba) => rgba@ == expanded(atlas_pixels@),
                None => true,
            },
            Self::frame_step(*old(self), *final(self), atlas_version),
            plan.commands@ == planned(viewport_size, scale_factor, meshes@),
            forall|k: int|
                0 <= k < plan.commands@.len() ==> final(self).resolves_texture(
                    (#[trigger] plan.commands@[k]).texture,
                ),
    {
        let rebuild_atlas = match self.texture_version {
            Some(v) => v != atlas_version,
            None => true,
        };
        self.texture_version = Some(atlas_version);
        let atlas_rgba = if rebuild_atlas {
            Some(expand_atlas_pixels(atlas_pixels))
        } else {
            None
        };
        let mut commands: Vec<DrawCommand> = Vec::new();
        let mut i: usize = 0;
        while i < meshes.len()
            invariant
                i <= meshes@.len(),
                Self::frame_step(*old(self), *self, atlas_version),
                forall|j: int|
                    0 <= j < meshes@.len() && is_drawn(#[trigger] meshes@[j]) ==> old(self).resolves_texture(
                        meshes@[j].texture,
                    ),
                commands@ == planned(viewport_size, scale_factor, meshes@.take(i as int)),
                forall|k: int|
                    0 <= k < commands@.len() ==> #[trigger] commands@[k].mesh < i && is_drawn(
                        meshes@[commands@[k].mesh as int],
                    ) && commands@[k].texture == meshes@[commands@[k].mesh as int].texture,
            decreases meshes@.len() - i,
        {
            let m = meshes[i];
            assert(meshes@.take(i + 1).drop_last() =~= meshes@.take(i as int));
            if m.vertex_count > 0 && m.index_count > 0 {
                let scissor = scissor_for(viewport_size, scale_factor, m.clip);
                commands.push(
                    DrawCommand { mesh: i, scissor, index_count: m.index_count, texture: m.texture },
                );
            }
            i = i + 1;
        }
        assert(meshes@.take(meshes@.len() as int) =~= meshes@);
        assert forall|k: int| 0 <= k < commands@.len() implies self.resolves_texture(
            (#[trigger] commands@[k]).texture,
        ) by {
            assert(is_drawn(meshes@[commands@[k].mesh as int]));
        }
        FramePlan { atlas_rgba, commands }
    }

    /// Registers the descriptor set of a user texture and returns the id that draws use
    /// to sample it.
    pub fn register_texture(&mut self, descriptor_set: S) -> (id: TextureId)
        requires
            old(self).user_sets().len() < usize::MAX,
        ensures
            match id {
                TextureId::UserRegistered(h) => inserted(old(self).user_sets(), final(self).user_sets(), descriptor_set, h),
                TextureId::BuiltinAtlas => false,
            },
            final(self).seen_version() == old(self).seen_version(),
            final(self).atlas_set() == old(self).atlas_set(),
            final(self).uploads() == old(self).uploads(),
    {
        let h = self.user_texture_descriptor_sets.insert(descriptor_set);
        TextureId::UserRegistered(h)
    }

    /// Forgets a user texture; does nothing for the built-in atlas or an id that no longer
    /// resolves.
    pub fn unregister_texture(&mut self, id: TextureId)
        ensures
            match id {
                TextureId::UserRegistered(h) => removed(
                    old(self).user_sets(),
                    final(self).user_sets(),
                    h,
                    lookup(old(self).user_sets(), h),
                ),
                TextureId::BuiltinAtlas => final(self).user_sets() == old(self).user_sets(),
            },
            final(self).seen_version() == old(self).seen_version(),
            final(self).atlas_set() == old(self).atlas_set(),
            final(self).uploads() == old(self).uploads(),
    {
        if let TextureId::UserRegistered(h) = id {
            let _ = self.user_texture_descriptor_sets.remove(h);
        }
    }

    /// The descriptor set that `id` samples from: the atlas set (once installed) or the
    /// registered user set; `None` for an id that was unregistered.
    pub fn texture(&self, id: TextureId) -> (r: Option<&S>)
        ensures
            match id {
                TextureId::BuiltinAtlas => match r {
                    Some(v) => self.atlas_set() == Some(*v),
                    None => self.atlas_set() is None,
                },
                TextureId::UserRegistered(h) => match r {
                    Some(v) => lookup(self.user_sets(), h) == Some(*v),
                    None => lookup(self.user_sets(), h) is None,
                },
            },
    {
        match id {
            TextureId::BuiltinAtlas => self.texture_descriptor_set.as_ref(),
            TextureId::UserRegistered(h) => self.user_texture_descriptor_sets.get(h),
        }
    }

    /// Installs the descriptor set of a freshly uploaded atlas image and counts the upload.
    pub fn install_atlas(&mut self, descriptor_set: S)
        ensures
            final(self).atlas_set() == Some(descriptor_set),
            final(self).uploads() == if old(self).uploads() == u64::MAX {
                u64::MAX
            } else {
                (old(self).uploads() + 1) as u64
            },
            final(self).seen_version() == old(self).seen_version(),
            final(self).user_sets() == old(self).user_sets(),
    {
        self.texture_descriptor_set = Some(descriptor_set);
        self.atlas_uploads = self.atlas_uploads.saturating_add(1);
    }

    /// Number of slots of the user-texture registry, vacant ones included; registering
    /// needs it below `usize::MAX`.
    pub fn user_texture_capacity(&self) -> (r: usize)
        ensures
            r == self.user_sets().len(),
    {
        self.user_texture_descriptor_sets.capacity()
    }

    /// Number of atlas images installed so far.
    pub fn atlas_uploads(&self) -> (r: u64)
        ensures
            r == self.uploads(),
    {
        self.atlas_uploads
    }
}

} // verus!
