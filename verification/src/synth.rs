//! Vertex/index synthesis.
//!
//! For each sprite, in submission order, the synthesizer emits the four
//! corners of a quad sized to the sprite's source rectangle — top-left,
//! bottom-left, top-right, bottom-right — and six indices forming the two
//! triangles `{0, 1, 2}` and `{1, 2, 3}`, offset by the sprite's global
//! vertex base. Corner positions are in local quad space with the origin
//! at the top-left corner; texture coordinates are the source rectangle's
//! corners in texel space. The caller applies each sprite's affine
//! transform to the local corners and normalizes texels and tint when it
//! builds the GPU-side vertex records.

use vstd::prelude::*;

use crate::geometry::Color;
use crate::geometry::Sprite;
use crate::geometry::rect_bottom;
use crate::geometry::rect_right;
use crate::geometry::src_fits;

verus! {

/// One corner of a sprite's quad. `local_x`/`local_y` are the corner's
/// position in the quad's local space (either zero or the source
/// rectangle's extent); `tex_u`/`tex_v` are the texture coordinates in
/// texels; the tint is replicated from the sprite across its four corners.
#[derive(Clone, Copy, Debug, PartialEq, Eq, Structural)]
pub struct Vertex {
    /// X position within the quad: `0` or the source rectangle's width.
    pub local_x: u32,
    /// Y position within the quad: `0` or the source rectangle's height.
    pub local_y: u32,
    /// Texture coordinate in texels: the source rectangle's left or right edge.
    pub tex_u: i32,
    /// Texture coordinate in texels: the source rectangle's top or bottom edge.
    pub tex_v: i32,
    /// The sprite's tint.
    pub tint: Color,
}

/// The vertex and index data of one frame, for all sprites in submission
/// order: four vertices and six indices per sprite.
pub struct Mesh {
    pub vertices: Vec<Vertex>,
    pub indices: Vec<u32>,
}

/// The four corners of a sprite's quad, in the fixed order top-left,
/// bottom-left, top-right, bottom-right.
pub open spec fn quad_vertices(s: Sprite) -> Seq<Vertex> {
    seq![
        Vertex { local_x: 0u32, local_y: 0u32, tex_u: s.src.x, tex_v: s.src.y, tint: s.tint },
        Vertex {
            local_x: 0u32,
            local_y: s.src.height,
            tex_u: s.src.x,
            tex_v: rect_bottom(s.src) as i32,
            tint: s.tint,
        },
        Vertex {
            local_x: s.src.width,
            local_y: 0u32,
            tex_u: rect_right(s.src) as i32,
            tex_v: s.src.y,
            tint: s.tint,
        },
        Vertex {
            local_x: s.src.width,
            local_y: s.src.height,
            tex_u: rect_right(s.src) as i32,
            tex_v: rect_bottom(s.src) as i32,
            tint: s.tint,
        },
    ]
}

/// The six indices of sprite number `t`: two triangles over the sprite's
/// four vertices, offset by the sprite's global vertex base `4 t`.
pub open spec fn quad_indices(t: int) -> Seq<u32> {
    seq![
        (4 * t) as u32,
        (4 * t + 1) as u32,
        (4 * t + 2) as u32,
        (4 * t + 1) as u32,
        (4 * t + 2) as u32,
        (4 * t + 3) as u32,
    ]
}

/// The vertices of all sprites, concatenated in submission order.
pub open spec fn all_vertices(sprites: Seq<Sprite>) -> Seq<Vertex>
    decreases sprites.len(),
{
    if sprites.len() == 0 {
        Seq::empty()
    } else {
        all_vertices(sprites.drop_last()) + quad_vertices(sprites.last())
    }
}

/// The indices of `n` sprites, concatenated in submission order.
pub open spec fn all_indices(n: int) -> Seq<u32>
    decreases n,
{
    if n <= 0 {
        Seq::empty()
    } else {
        all_indices(n - 1) + quad_indices(n - 1)
    }
}

/// Law: synthesis emits exactly four vertices per sprite.
pub proof fn lemma_all_vertices_len(sprites: Seq<Sprite>)
    ensures
        all_vertices(sprites).len() == 4 * sprites.len(),
    decreases sprites.len(),
{
    if sprites.len() > 0 {
        lemma_all_vertices_len(sprites.drop_last());
    }
}

/// Law: synthesis emits exactly six indices per sprite.
pub proof fn lemma_all_indices_len(n: int)
    requires
        n >= 0,
    ensures
        all_indices(n).len() == 6 * n,
    decreases n,
{
    if n > 0 {
        lemma_all_indices_len(n - 1);
    }
}

/// Law: the vertices of sprite `t` stand at positions `4 t .. 4 t + 4` of
/// the combined vertex list and are exactly that sprite's quad corners.
pub proof fn lemma_all_vertices_index(sprites: Seq<Sprite>, t: int, k: int)
    requires
        0 <= t < sprites.len(),
        0 <= k < 4,
    ensures
        all_vertices(sprites)[4 * t + k] == quad_vertices(sprites[t])[k],
    decreases sprites.len(),
{
    lemma_all_vertices_len(sprites.drop_last());
    if t < sprites.len() - 1 {
        lemma_all_vertices_index(sprites.drop_last(), t, k);
    }
}

/// Law: the indices of sprite `t` stand at positions `6 t .. 6 t + 6` of
/// the combined index list and reference that sprite's four vertices.
pub proof fn lemma_all_indices_index(n: int, t: int, k: int)
    requires
        0 <= t < n,
        0 <= k < 6,
    ensures
        all_indices(n)[6 * t + k] == quad_indices(t)[k],
    decreases n,
{
    lemma_all_indices_len(n - 1);
    if t < n - 1 {
        lemma_all_indices_index(n - 1, t, k);
    }
}

/// Law: a draw over the index range `6 s .. 6 e` — the range a group of
/// sprites `s..e` records — reads only vertices of those same sprites:
/// every index it covers lies in `4 s .. 4 e`.
pub proof fn lemma_group_indices_reference_own_sprites(n: int, s: int, e: int, t: int, k: int)
    requires
        4 * n <= u32::MAX,
        0 <= s <= t < e <= n,
        0 <= k < 6,
    ensures
        4 * s <= all_indices(n)[6 * t + k] < 4 * e,
{
    lemma_all_indices_index(n, t, k);
}

/// Law: every index of the combined index list addresses one of the
/// combined vertex list's `4 n` vertices — a draw over any of its ranges
/// never reads past the synthesized vertices.
pub proof fn lemma_indices_in_bounds(n: int, j: int)
    requires
        4 * n <= u32::MAX,
        0 <= j < 6 * n,
    ensures
        all_indices(n)[j] < 4 * n,
    decreases n,
{
    lemma_all_indices_len(n - 1);
    if j < 6 * (n - 1) {
        lemma_indices_in_bounds(n - 1, j);
    }
}

/// Expands every sprite into its four quad corners and six triangle
/// indices, in submission order.
pub fn synthesize(sprites: &Vec<Sprite>) -> (mesh: Mesh)
    requires
        forall|j: int| 0 <= j < sprites@.len() ==> src_fits(#[trigger] sprites@[j]),
        4 * sprites@.len() <= u32::MAX,
    ensures
        mesh.vertices@ == all_vertices(sprites@),
        mesh.indices@ == all_indices(sprites@.len() as int),
        mesh.vertices@.len() == 4 * sprites@.len(),
        mesh.indices@.len() == 6 * sprites@.len(),
{
    let n = sprites.len();
    let mut vertices: Vec<Vertex> = Vec::new();
    let mut indices: Vec<u32> = Vec::new();
    let mut i: usize = 0;
    while i < n
        invariant
            n == sprites@.len(),
            i <= n,
            forall|j: int| 0 <= j < sprites@.len() ==> src_fits(#[trigger] sprites@[j]),
            4 * n <= u32::MAX,
            vertices@ == all_vertices(sprites@.take(i as int)),
            indices@ == all_indices(i as int),
            vertices@.len() == 4 * i,
            indices@.len() == 6 * i,
        decreases n - i,
    {
        let s = sprites[i];
        let base = vertices.len() as u32;
        let right: i32 = ((s.src.x as i64) + (s.src.width as i64)) as i32;
        let bottom: i32 = ((s.src.y as i64) + (s.src.height as i64)) as i32;
        vertices.push(
            Vertex { local_x: 0, local_y: 0, tex_u: s.src.x, tex_v: s.src.y, tint: s.tint },
        );
        vertices.push(
            Vertex {
                local_x: 0,
                local_y: s.src.height,
                tex_u: s.src.x,
                tex_v: bottom,
                tint: s.tint,
            },
        );
        vertices.push(
            Vertex {
                local_x: s.src.width,
                local_y: 0,
                tex_u: right,
                tex_v: s.src.y,
                tint: s.tint,
            },
        );
        vertices.push(
            Vertex {
                local_x: s.src.width,
                local_y: s.src.height,
                tex_u: right,
                tex_v: bottom,
                tint: s.tint,
            },
        );
        indices.push(base);
        indices.push(base + 1);
        indices.push(base + 2);
        indices.push(base + 1);
        indices.push(base + 2);
        indices.push(base + 3);
        proof {
            assert(sprites@.take((i + 1) as int).drop_last() =~= sprites@.take(i as int));
            assert(sprites@.take((i + 1) as int).last() == sprites@[i as int]);
            assert(vertices@ =~= all_vertices(sprites@.take((i + 1) as int)));
            assert(indices@ =~= all_indices((i + 1) as int));
        }
        i = i + 1;
    }
    proof {
        assert(sprites@.take(n as int) =~= sprites@);
    }
    Mesh { vertices, indices }
}

} // verus!
