//! Contiguous-run batching.
//!
//! The batcher partitions the ordered sprite list into maximal contiguous
//! runs that share one texture identity; each run becomes one draw call.
//! Submission order is preserved — runs of the same texture separated by a
//! different texture are deliberately not merged, so back-to-front alpha
//! blending stays correct. Callers who want fewer batches must pre-sort
//! their sprites by texture themselves, trading draw order for batch count.

use vstd::prelude::*;

use crate::geometry::Sprite;
use crate::geometry::TextureInfo;

verus! {

/// A maximal contiguous run of sprites sharing one texture identity:
/// the sprites at indices `start..end` of the submitted list.
#[derive(Clone, Copy, Debug, PartialEq, Eq, Structural)]
pub struct Group {
    /// Index of the first sprite of the run.
    pub start: usize,
    /// One past the index of the last sprite of the run.
    pub end: usize,
    /// The texture all sprites of the run reference.
    pub texture: TextureInfo,
}

/// `groups` is a grouping of the first `upto` sprites of `sprites`: the
/// groups tile `0..upto` in order, each is a non-empty same-texture run,
/// and no two adjacent groups share a texture identity.
pub open spec fn groups_cover(sprites: Seq<Sprite>, groups: Seq<Group>, upto: int) -> bool {
    &&& (groups.len() == 0 <==> upto == 0)
    &&& (groups.len() > 0 ==> groups[0].start == 0)
    &&& (groups.len() > 0 ==> groups[groups.len() - 1].end == upto)
    &&& (forall|g: int| 0 <= g < groups.len() ==> (#[trigger] groups[g]).start < groups[g].end <= upto)
    &&& (forall|g: int| 0 < g < groups.len() ==> (#[trigger] groups[g]).start == groups[g - 1].end)
    &&& (forall|g: int|
        0 <= g < groups.len() ==> (#[trigger] groups[g]).texture
            == sprites[groups[g].start as int].texture)
    &&& (forall|g: int, j: int|
        0 <= g < groups.len() && groups[g].start <= j < groups[g].end
            ==> (#[trigger] sprites[j]).texture.id == (#[trigger] groups[g]).texture.id)
    &&& (forall|g: int|
        0 < g < groups.len() ==> (#[trigger] groups[g]).texture.id != groups[g - 1].texture.id)
}

/// `groups` is the grouping of the whole sprite list: concatenating the
/// groups' runs reproduces the input order exactly, every sprite of a group
/// references the group's texture identity, and adjacent groups always
/// differ in texture identity (maximality).
pub open spec fn is_grouping(sprites: Seq<Sprite>, groups: Seq<Group>) -> bool {
    groups_cover(sprites, groups, sprites.len() as int)
}

/// Partitions the sprite list into maximal contiguous same-texture runs,
/// in one linear pass and without reordering anything.
pub fn group_sprites(sprites: &Vec<Sprite>) -> (groups: Vec<Group>)
    ensures
        is_grouping(sprites@, groups@),
{
    let n = sprites.len();
    let mut groups: Vec<Group> = Vec::new();
    if n == 0 {
        return groups;
    }
    let mut run_start: usize = 0;
    let mut i: usize = 1;
    while i < n
        invariant
            n == sprites@.len(),
            1 <= i <= n,
            run_start < i,
            groups_cover(sprites@, groups@, run_start as int),
            forall|j: int|
                run_start <= j < i ==> (#[trigger] sprites@[j]).texture.id
                    == sprites@[run_start as int].texture.id,
            groups@.len() > 0 ==> groups@[groups@.len() - 1].texture.id
                != sprites@[run_start as int].texture.id,
        decreases n - i,
    {
        if sprites[i].texture.id != sprites[run_start].texture.id {
            groups.push(
                Group { start: run_start, end: i, texture: sprites[run_start].texture },
            );
            run_start = i;
        }
        i = i + 1;
    }
    groups.push(Group { start: run_start, end: n, texture: sprites[run_start].texture });
    groups
}

/// With equal starts, a group of one grouping ends no later than its
/// counterpart in another grouping of the same sprites: ending earlier
/// would split a same-texture run that the other grouping shows is still
/// running, against maximality.
proof fn lemma_run_end_le(sprites: Seq<Sprite>, ga: Seq<Group>, gb: Seq<Group>, k: int)
    requires
        is_grouping(sprites, ga),
        is_grouping(sprites, gb),
        0 <= k < ga.len(),
        k < gb.len(),
        ga[k].start == gb[k].start,
    ensures
        ga[k].end <= gb[k].end,
{
    if ga[k].end > gb[k].end {
        let e = gb[k].end as int;
        assert(e < sprites.len());
        assert(k < gb.len() - 1);
        assert(gb[k + 1].start == e);
        assert(gb[k + 1].texture.id == sprites[e].texture.id);
        assert(sprites[e].texture.id == ga[k].texture.id);
        assert(ga[k].texture.id == sprites[ga[k].start as int].texture.id);
        assert(gb[k].texture.id == sprites[gb[k].start as int].texture.id);
        assert(false);
    }
}

/// Groupings of the same sprite list agree group by group.
proof fn lemma_grouping_agrees_at(sprites: Seq<Sprite>, ga: Seq<Group>, gb: Seq<Group>, k: int)
    requires
        is_grouping(sprites, ga),
        is_grouping(sprites, gb),
        0 <= k < ga.len(),
        k < gb.len(),
    ensures
        ga[k] == gb[k],
    decreases k,
{
    if k > 0 {
        lemma_grouping_agrees_at(sprites, ga, gb, k - 1);
    }
    lemma_run_end_le(sprites, ga, gb, k);
    lemma_run_end_le(sprites, gb, ga, k);
}

/// Law: the grouping contract pins the batcher down — any two groupings
/// of the same sprite list are the same sequence of groups.
pub proof fn lemma_grouping_unique(sprites: Seq<Sprite>, ga: Seq<Group>, gb: Seq<Group>)
    requires
        is_grouping(sprites, ga),
        is_grouping(sprites, gb),
    ensures
        ga =~= gb,
{
    assert forall|k: int| 0 <= k < ga.len() && k < gb.len() implies ga[k] == gb[k] by {
        lemma_grouping_agrees_at(sprites, ga, gb, k);
    }
    if ga.len() < gb.len() {
        if ga.len() == 0 {
            assert(sprites.len() == 0);
        } else {
            lemma_grouping_agrees_at(sprites, ga, gb, ga.len() - 1);
            assert(gb[ga.len() as int].start == gb[ga.len() - 1].end);
            assert(gb[ga.len() - 1].end == sprites.len());
            assert(false);
        }
    }
    if gb.len() < ga.len() {
        if gb.len() == 0 {
            assert(sprites.len() == 0);
        } else {
            lemma_grouping_agrees_at(sprites, ga, gb, gb.len() - 1);
            assert(ga[gb.len() as int].start == ga[gb.len() - 1].end);
            assert(ga[gb.len() - 1].end == sprites.len());
            assert(false);
        }
    }
}

/// Each group ends no earlier than its position allows: group `g` covers
/// at least the sprites up to index `g`, since every group is non-empty.
pub proof fn lemma_group_end_lower_bound(sprites: Seq<Sprite>, groups: Seq<Group>, g: int)
    requires
        is_grouping(sprites, groups),
        0 <= g < groups.len(),
    ensures
        groups[g].end >= g + 1,
    decreases g,
{
    if g > 0 {
        lemma_group_end_lower_bound(sprites, groups, g - 1);
    }
}

/// Law: there are never more groups than sprites.
pub proof fn lemma_group_count_le_sprites(sprites: Seq<Sprite>, groups: Seq<Group>)
    requires
        is_grouping(sprites, groups),
    ensures
        groups.len() <= sprites.len(),
{
    if groups.len() > 0 {
        lemma_group_end_lower_bound(sprites, groups, groups.len() - 1);
    }
}

/// Law: a non-empty sprite list whose sprites all share one texture
/// identity is batched as exactly one group, covering the whole list.
pub proof fn lemma_uniform_texture_single_group(sprites: Seq<Sprite>, groups: Seq<Group>)
    requires
        is_grouping(sprites, groups),
        sprites.len() > 0,
        forall|j: int|
            0 <= j < sprites.len() ==> (#[trigger] sprites[j]).texture.id
                == sprites[0].texture.id,
    ensures
        groups.len() == 1,
        groups[0].start == 0,
        groups[0].end == sprites.len(),
{
    if groups.len() >= 2 {
        assert(groups[0].texture.id == sprites[0].texture.id);
        assert(groups[1].start == groups[0].end);
        assert(groups[1].texture.id == sprites[groups[1].start as int].texture.id);
        assert(false);
    }
}

/// Law: three sprites whose texture identities run A, B, A with A ≠ B form
/// exactly three singleton groups — non-adjacent runs of the same texture
/// are never merged.
pub proof fn lemma_alternating_three_groups(sprites: Seq<Sprite>, groups: Seq<Group>)
    requires
        is_grouping(sprites, groups),
        sprites.len() == 3,
        sprites[0].texture.id == sprites[2].texture.id,
        sprites[0].texture.id != sprites[1].texture.id,
    ensures
        groups.len() == 3,
        forall|g: int| 0 <= g < 3 ==> (#[trigger] groups[g]).start == g && groups[g].end == g + 1,
{
    assert(groups.len() >= 1);
    assert(groups[0].start == 0);
    if groups[0].end >= 2 {
        assert(sprites[1].texture.id == groups[0].texture.id);
        assert(groups[0].texture.id == sprites[0].texture.id);
        assert(false);
    }
    assert(groups[0].end == 1);
    assert(groups.len() >= 2);
    assert(groups[1].start == 1);
    if groups[1].end == 3 {
        assert(sprites[2].texture.id == groups[1].texture.id);
        assert(groups[1].texture.id == sprites[1].texture.id);
        assert(false);
    }
    assert(groups[1].end == 2);
    assert(groups.len() >= 3);
    assert(groups[2].start == 2);
    assert(groups[2].end == 3);
    if groups.len() >= 4 {
        assert(groups[3].start == 3);
        assert(groups[3].start < groups[3].end <= 3);
        assert(false);
    }
}

} // verus!
