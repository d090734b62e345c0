//! The two-phase draw protocol.
//!
//! `prepare` turns this frame's sprite list into a draw plan: it batches
//! the sprites into contiguous same-texture groups, synthesizes the vertex
//! and index data, sizes the GPU buffers under the grow-only policy, and
//! records, per group, the index range to draw and the byte offset of the
//! group's uniform slot. `render` replays the plan as an ordered list of
//! draw calls, one per group. The caller performs the device work around
//! both phases: uploading the byte buffers, creating one bind group per
//! prepared group (texture view, shared sampler, uniform slot), and
//! recording the draw calls into an open render pass.

use vstd::prelude::*;

use crate::batch::Group;
use crate::batch::group_sprites;
use crate::batch::is_grouping;
use crate::batch::lemma_group_count_le_sprites;
use crate::batch::lemma_uniform_texture_single_group;
use crate::geometry::Sprite;
use crate::geometry::TextureInfo;
use crate::geometry::src_fits;
use crate::pool::ensure_buffer_size;
use crate::pool::grown_size;
use crate::synth::Mesh;
use crate::synth::all_indices;
use crate::synth::all_vertices;
use crate::synth::lemma_all_vertices_len;
use crate::synth::synthesize;

verus! {

/// Byte size of one GPU vertex record: three position floats, two texture
/// coordinate floats and four tint floats, four bytes each.
pub const VERTEX_STRIDE: u64 = 36;

/// Byte size of one index in the 32-bit index format.
pub const INDEX_STRIDE: u64 = 4;

/// Byte size of one packed per-texture uniform record under std140: a
/// float vector of the texture size (12 bytes, aligned to 16) followed by
/// the four-byte mask flag.
pub const TEXTURE_UNIFORMS_SIZE: u64 = 16;

/// Number of vertex records the vertex buffer holds room for at
/// construction, before any frame has grown it.
pub const INITIAL_VERTEX_CAPACITY: u64 = 1024;

/// Number of indices the index buffer holds room for at construction.
pub const INITIAL_INDEX_CAPACITY: u64 = 1024;

/// Largest sprite count whose six indices per sprite still fit the 32-bit
/// index format.
pub const MAX_SPRITES: u64 = 715827882;

/// Why construction or `prepare` refused its input.
#[derive(Clone, Copy, Debug, PartialEq, Eq, Structural)]
pub enum Error {
    /// The device reported a uniform-buffer offset alignment too small to
    /// hold one packed per-texture uniform record; a zero alignment falls
    /// here. Detected at construction, which then returns no renderer.
    InvalidUniformAlignment,
    /// The sprite list would produce more indices than the 32-bit index
    /// format can address.
    TooManyIndices,
    /// A sprite's source rectangle runs past the texel coordinate range,
    /// so its far corner has no 32-bit texture coordinate.
    SourceRectOutOfRange,
}

/// One batched draw call, valid until the next `prepare`: the sprites
/// `sprite_start..sprite_end`, drawn as indices `index_start..index_end`
/// of the shared index buffer, with the group's uniform record bound at
/// `uniform_offset` into the shared uniform buffer.
#[derive(Clone, Copy, Debug, PartialEq, Eq, Structural)]
pub struct PreparedGroup {
    /// Index of the group's first sprite in the submitted list.
    pub sprite_start: usize,
    /// One past the index of the group's last sprite.
    pub sprite_end: usize,
    /// The texture all sprites of the group reference; the caller's bind
    /// group combines its view with the shared sampler and uniform slot.
    pub texture: TextureInfo,
    /// First index of the group's range in the shared index buffer.
    pub index_start: u32,
    /// One past the last index of the group's range.
    pub index_end: u32,
    /// Byte offset of the group's uniform slot: group number × stride.
    pub uniform_offset: u64,
}

/// The sprite run a prepared group covers, as the batcher's group.
pub open spec fn group_of(pg: PreparedGroup) -> Group {
    Group { start: pg.sprite_start, end: pg.sprite_end, texture: pg.texture }
}

/// The prepared groups are a faithful draw plan for the sprite list: their
/// sprite runs are the contiguous-run grouping, each group's index range
/// is six indices per sprite of its run, and group `g`'s uniform slot sits
/// at byte offset `g × alignment`.
pub open spec fn prepared_consistent(
    sprites: Seq<Sprite>,
    pgs: Seq<PreparedGroup>,
    alignment: u32,
) -> bool {
    &&& is_grouping(sprites, pgs.map_values(|pg: PreparedGroup| group_of(pg)))
    &&& (forall|g: int|
        0 <= g < pgs.len() ==> {
            &&& (#[trigger] pgs[g]).index_start == 6 * pgs[g].sprite_start
            &&& pgs[g].index_end == 6 * pgs[g].sprite_end
            &&& pgs[g].uniform_offset == g * alignment
        })
}

/// Bytes the vertex buffer must hold for this many sprites.
pub open spec fn vertex_buffer_bytes(sprite_count: int) -> int {
    4 * sprite_count * VERTEX_STRIDE
}

/// Bytes the index buffer must hold for this many sprites.
pub open spec fn index_buffer_bytes(sprite_count: int) -> int {
    6 * sprite_count * INDEX_STRIDE
}

/// Bytes the texture-uniforms buffer must hold for this many groups.
pub open spec fn uniform_buffer_bytes(group_count: int, alignment: u32) -> int {
    group_count * alignment
}

/// Every sprite's source rectangle stays in texel coordinate range.
pub open spec fn all_src_fit(sprites: Seq<Sprite>) -> bool {
    forall|j: int| 0 <= j < sprites.len() ==> src_fits(#[trigger] sprites[j])
}

/// The renderer's bookkeeping between frames: the uniform packing stride
/// the device dictates, the current byte sizes of the three shared GPU
/// buffers, and the draw plan of the last prepared frame. The pipeline,
/// layouts, sampler and the buffers themselves live with the caller, which
/// mirrors every size recorded here.
pub struct Renderer {
    /// The device's minimum uniform-buffer offset alignment, used as the
    /// packing stride for per-texture uniform records. Fixed at
    /// construction.
    pub uniform_alignment: u32,
    /// Current byte size of the shared vertex buffer.
    pub vertex_buffer_size: u64,
    /// Current byte size of the shared index buffer.
    pub index_buffer_size: u64,
    /// Current byte size of the shared per-texture uniforms buffer.
    pub texture_uniforms_buffer_size: u64,
    /// The draw plan of the last prepared frame, replaced wholesale by
    /// every `prepare` call.
    pub prepared_groups: Vec<PreparedGroup>,
}

/// One entry of the draw sequence `render` issues: bind prepared group
/// `group`'s texture bind group, then draw its index range with one
/// instance.
#[derive(Clone, Copy, Debug, PartialEq, Eq, Structural)]
pub struct DrawCall {
    /// Which prepared group's bind group to bind.
    pub group: usize,
    /// First index of the range to draw.
    pub index_start: u32,
    /// One past the last index of the range to draw.
    pub index_end: u32,
}

impl Renderer {
    /// The stride can hold one packed per-texture uniform record, so
    /// packing and slot binding are meaningful.
    pub open spec fn wf(self) -> bool {
        self.uniform_alignment >= TEXTURE_UNIFORMS_SIZE
    }

    /// Creates a new renderer around the device-reported uniform-buffer
    /// offset alignment. An alignment too small to space packed uniform
    /// records — in particular zero — is a configuration error: no
    /// renderer is returned.
    pub fn new(uniform_alignment: u32) -> (r: Result<Renderer, Error>)
        ensures
            r is Ok <==> uniform_alignment >= TEXTURE_UNIFORMS_SIZE,
            r is Err ==> r == Err::<Renderer, Error>(Error::InvalidUniformAlignment),
            r is Ok ==> {
                let renderer = r->Ok_0;
                &&& renderer.wf()
                &&& renderer.uniform_alignment == uniform_alignment
                &&& renderer.vertex_buffer_size == VERTEX_STRIDE * INITIAL_VERTEX_CAPACITY
                &&& renderer.index_buffer_size == INDEX_STRIDE * INITIAL_INDEX_CAPACITY
                &&& renderer.texture_uniforms_buffer_size == TEXTURE_UNIFORMS_SIZE
                &&& renderer.prepared_groups@.len() == 0
            },
    {
        if (uniform_alignment as u64) < TEXTURE_UNIFORMS_SIZE {
            return Err(Error::InvalidUniformAlignment);
        }
        Ok(
            Renderer {
                uniform_alignment,
                vertex_buffer_size: VERTEX_STRIDE * INITIAL_VERTEX_CAPACITY,
                index_buffer_size: INDEX_STRIDE * INITIAL_INDEX_CAPACITY,
                texture_uniforms_buffer_size: TEXTURE_UNIFORMS_SIZE,
                prepared_groups: Vec::new(),
            },
        )
    }

    /// Rebuilds the frame's draw state from the sprite list: batches the
    /// sprites, synthesizes the mesh the caller uploads, grows the
    /// recorded buffer sizes to fit, and replaces the prepared-group list
    /// wholesale. Succeeds on exactly the inputs whose indices fit the
    /// 32-bit index format and whose source rectangles stay in texel
    /// range; on an error, nothing is changed.
    #[verifier::loop_isolation(false)]
    pub fn prepare(&mut self, sprites: &Vec<Sprite>) -> (r: Result<Mesh, Error>)
        requires
            old(self).wf(),
        ensures
            final(self).wf(),
            final(self).uniform_alignment == old(self).uniform_alignment,
            r is Ok <==> 6 * sprites@.len() <= u32::MAX && all_src_fit(sprites@),
            r == Err::<Mesh, Error>(Error::TooManyIndices) <==> 6 * sprites@.len() > u32::MAX,
            r == Err::<Mesh, Error>(Error::SourceRectOutOfRange) <==> 6 * sprites@.len()
                <= u32::MAX && !all_src_fit(sprites@),
            r is Err ==> {
                &&& final(self).vertex_buffer_size == old(self).vertex_buffer_size
                &&& final(self).index_buffer_size == old(self).index_buffer_size
                &&& final(self).texture_uniforms_buffer_size == old(
                    self,
                ).texture_uniforms_buffer_size
                &&& final(self).prepared_groups@ == old(self).prepared_groups@
            },
            r is Ok ==> {
                let mesh = r->Ok_0;
                &&& mesh.vertices@ == all_vertices(sprites@)
                &&& mesh.indices@ == all_indices(sprites@.len() as int)
                &&& mesh.vertices@.len() == 4 * sprites@.len()
                &&& mesh.indices@.len() == 6 * sprites@.len()
                &&& prepared_consistent(
                    sprites@,
                    final(self).prepared_groups@,
                    old(self).uniform_alignment,
                )
                &&& final(self).vertex_buffer_size == grown_size(
                    old(self).vertex_buffer_size as int,
                    vertex_buffer_bytes(sprites@.len() as int),
                )
                &&& final(self).index_buffer_size == grown_size(
                    old(self).index_buffer_size as int,
                    index_buffer_bytes(sprites@.len() as int),
                )
                &&& final(self).texture_uniforms_buffer_size == grown_size(
                    old(self).texture_uniforms_buffer_size as int,
                    uniform_buffer_bytes(
                        final(self).prepared_groups@.len() as int,
                        old(self).uniform_alignment,
                    ),
                )
            },
            final(self).vertex_buffer_size >= old(self).vertex_buffer_size,
            final(self).index_buffer_size >= old(self).index_buffer_size,
            final(self).texture_uniforms_buffer_size >= old(self).texture_uniforms_buffer_size,
    {
        let n = sprites.len();
        if n as u64 > MAX_SPRITES {
            return Err(Error::TooManyIndices);
        }
        let mut i: usize = 0;
        while i < n
            invariant
                n == sprites@.len(),
                i <= n,
                forall|j: int| 0 <= j < i ==> src_fits(#[trigger] sprites@[j]),
            decreases n - i,
        {
            let s = &sprites[i];
            let right_overflows = (s.src.x as i64) + (s.src.width as i64) > i32::MAX as i64;
            let bottom_overflows = (s.src.y as i64) + (s.src.height as i64) > i32::MAX as i64;
            if right_overflows || bottom_overflows {
                return Err(Error::SourceRectOutOfRange);
            }
            i = i + 1;
        }
        let groups = group_sprites(sprites);
        let mesh = synthesize(sprites);
        proof {
            lemma_group_count_le_sprites(sprites@, groups@);
        }
        let alignment = self.uniform_alignment;
        let group_count = groups.len();
        let mut prepared: Vec<PreparedGroup> = Vec::new();
        let mut g: usize = 0;
        while g < group_count
            invariant
                n == sprites@.len(),
                n as u64 <= MAX_SPRITES,
                is_grouping(sprites@, groups@),
                group_count == groups@.len(),
                group_count <= n,
                g <= group_count,
                prepared@.len() == g,
                forall|t: int|
                    0 <= t < g ==> {
                        &&& (#[trigger] prepared@[t]).sprite_start == groups@[t].start
                        &&& prepared@[t].sprite_end == groups@[t].end
                        &&& prepared@[t].texture == groups@[t].texture
                        &&& prepared@[t].index_start == 6 * groups@[t].start
                        &&& prepared@[t].index_end == 6 * groups@[t].end
                        &&& prepared@[t].uniform_offset == t * alignment
                    },
            decreases group_count - g,
        {
            let grp = groups[g];
            proof {
                assert((g as int) * (alignment as int) <= 715827882int * 4294967295int)
                    by (nonlinear_arith)
                    requires
                        0 <= g <= 715827882,
                        0 <= alignment <= 4294967295,
                ;
            }
            prepared.push(
                PreparedGroup {
                    sprite_start: grp.start,
                    sprite_end: grp.end,
                    texture: grp.texture,
                    index_start: ((grp.start as u64) * 6) as u32,
                    index_end: ((grp.end as u64) * 6) as u32,
                    uniform_offset: (g as u64) * (alignment as u64),
                },
            );
            g = g + 1;
        }
        proof {
            let mapped = prepared@.map_values(|pg: PreparedGroup| group_of(pg));
            assert(mapped =~= groups@);
        }
        let vertex_required = (mesh.vertices.len() as u64) * VERTEX_STRIDE;
        let index_required = (mesh.indices.len() as u64) * INDEX_STRIDE;
        proof {
            assert((group_count as int) * (alignment as int) <= 715827882int * 4294967295int)
                by (nonlinear_arith)
                requires
                    0 <= group_count <= 715827882,
                    0 <= alignment <= 4294967295,
            ;
        }
        let uniform_required = (group_count as u64) * (alignment as u64);
        self.vertex_buffer_size = ensure_buffer_size(self.vertex_buffer_size, vertex_required);
        self.index_buffer_size = ensure_buffer_size(self.index_buffer_size, index_required);
        self.texture_uniforms_buffer_size = ensure_buffer_size(
            self.texture_uniforms_buffer_size,
            uniform_required,
        );
        self.prepared_groups = prepared;
        Ok(mesh)
    }

    /// Replays the current draw plan: one draw call per prepared group, in
    /// order. The caller binds the pipeline, the full vertex and index
    /// buffers and the target-uniforms bind group once, then for each call
    /// binds the group's texture bind group and draws its index range with
    /// instance count one. An empty plan draws nothing.
    pub fn render(&self) -> (calls: Vec<DrawCall>)
        ensures
            calls@.len() == self.prepared_groups@.len(),
            forall|g: int|
                0 <= g < calls@.len() ==> {
                    &&& (#[trigger] calls@[g]).group == g
                    &&& calls@[g].index_start == self.prepared_groups@[g].index_start
                    &&& calls@[g].index_end == self.prepared_groups@[g].index_end
                },
    {
        let mut calls: Vec<DrawCall> = Vec::new();
        let count = self.prepared_groups.len();
        let mut g: usize = 0;
        while g < count
            invariant
                count == self.prepared_groups@.len(),
                g <= count,
                calls@.len() == g,
                forall|t: int|
                    0 <= t < g ==> {
                        &&& (#[trigger] calls@[t]).group == t
                        &&& calls@[t].index_start == self.prepared_groups@[t].index_start
                        &&& calls@[t].index_end == self.prepared_groups@[t].index_end
                    },
            decreases count - g,
        {
            let pg = &self.prepared_groups[g];
            calls.push(DrawCall { group: g, index_start: pg.index_start, index_end: pg.index_end });
            g = g + 1;
        }
        calls
    }
}

/// Law: for a non-empty sprite list drawn from one texture, the plan holds
/// exactly one group; its index range is six indices per sprite and the
/// frame's vertex list holds four vertices per sprite.
pub proof fn lemma_uniform_texture_one_draw(
    sprites: Seq<Sprite>,
    pgs: Seq<PreparedGroup>,
    alignment: u32,
)
    requires
        prepared_consistent(sprites, pgs, alignment),
        sprites.len() > 0,
        forall|j: int|
            0 <= j < sprites.len() ==> (#[trigger] sprites[j]).texture.id
                == sprites[0].texture.id,
    ensures
        pgs.len() == 1,
        pgs[0].index_start == 0,
        pgs[0].index_end == 6 * sprites.len(),
        all_vertices(sprites).len() == 4 * sprites.len(),
{
    let groups = pgs.map_values(|pg: PreparedGroup| group_of(pg));
    lemma_uniform_texture_single_group(sprites, groups);
    lemma_all_vertices_len(sprites);
    assert(pgs[0].sprite_start == groups[0].start);
    assert(pgs[0].sprite_end == groups[0].end);
}

/// Law: concatenating the index ranges of the prepared groups, in order,
/// reconstructs `0 .. 6 n` with no gaps or overlaps: the first range
/// starts at zero, every later range starts where the previous one ended,
/// every range is non-empty, and the last ends at the total index count.
pub proof fn lemma_index_ranges_contiguous(
    sprites: Seq<Sprite>,
    pgs: Seq<PreparedGroup>,
    alignment: u32,
)
    requires
        prepared_consistent(sprites, pgs, alignment),
    ensures
        pgs.len() > 0 ==> pgs[0].index_start == 0,
        pgs.len() > 0 ==> pgs[pgs.len() - 1].index_end == 6 * sprites.len(),
        forall|g: int|
            0 < g < pgs.len() ==> (#[trigger] pgs[g]).index_start == pgs[g - 1].index_end,
        forall|g: int| 0 <= g < pgs.len() ==> (#[trigger] pgs[g]).index_start < pgs[g].index_end,
{
    let groups = pgs.map_values(|pg: PreparedGroup| group_of(pg));
    assert forall|g: int| 0 < g < pgs.len() implies (#[trigger] pgs[g]).index_start == pgs[g
        - 1].index_end by {
        assert(groups[g].start == groups[g - 1].end);
    }
    assert forall|g: int| 0 <= g < pgs.len() implies (#[trigger] pgs[g]).index_start
        < pgs[g].index_end by {
        assert(groups[g].start < groups[g].end);
    }
    if pgs.len() > 0 {
        assert(groups[0].start == 0);
        assert(groups[pgs.len() - 1].end == sprites.len());
    }
}

/// Law: preparing an empty sprite list leaves an empty plan, so the
/// following `render` issues zero draw calls.
pub proof fn lemma_empty_prepare_no_draws(
    sprites: Seq<Sprite>,
    pgs: Seq<PreparedGroup>,
    alignment: u32,
)
    requires
        prepared_consistent(sprites, pgs, alignment),
        sprites.len() == 0,
    ensures
        pgs.len() == 0,
{
    assert(pgs.map_values(|pg: PreparedGroup| group_of(pg)).len() == pgs.len());
}

} // verus!
