use spright::geometry::Color;
use spright::geometry::Rect;
use spright::geometry::Sprite;
use spright::geometry::TextureInfo;
use spright::renderer::Error;
use spright::renderer::Renderer;
use spright::renderer::INDEX_STRIDE;
use spright::renderer::TEXTURE_UNIFORMS_SIZE;
use spright::renderer::VERTEX_STRIDE;

const ALIGNMENT: u32 = 256;

fn tex(id: u64) -> TextureInfo {
    TextureInfo { id, width: 64, height: 64, is_mask: false }
}

fn sprite(texture: TextureInfo) -> Sprite {
    Sprite {
        texture,
        src: Rect { x: 0, y: 0, width: 16, height: 16 },
        tint: Color { r: 255, g: 255, b: 255, a: 255 },
    }
}

fn renderer() -> Renderer {
    Renderer::new(ALIGNMENT).expect("a realistic alignment is accepted")
}

#[test]
fn zero_alignment_is_a_configuration_error() {
    assert!(matches!(Renderer::new(0), Err(Error::InvalidUniformAlignment)));
}

#[test]
fn alignment_below_one_record_is_a_configuration_error() {
    assert!(matches!(
        Renderer::new(TEXTURE_UNIFORMS_SIZE as u32 - 1),
        Err(Error::InvalidUniformAlignment)
    ));
    assert!(Renderer::new(TEXTURE_UNIFORMS_SIZE as u32).is_ok());
}

#[test]
fn one_texture_many_sprites_is_one_draw_call() {
    let mut r = renderer();
    let sprites = vec![sprite(tex(5)); 8];
    let mesh = r.prepare(&sprites).expect("in-range sprites prepare");
    assert_eq!(mesh.vertices.len(), 4 * 8);
    assert_eq!(mesh.indices.len(), 6 * 8);
    assert_eq!(r.prepared_groups.len(), 1);
    assert_eq!(r.prepared_groups[0].index_start, 0);
    assert_eq!(r.prepared_groups[0].index_end, 6 * 8);
    let calls = r.render();
    assert_eq!(calls.len(), 1);
}

#[test]
fn alternating_textures_make_three_groups() {
    let mut r = renderer();
    let sprites = vec![sprite(tex(1)), sprite(tex(2)), sprite(tex(1))];
    r.prepare(&sprites).expect("in-range sprites prepare");
    assert_eq!(r.prepared_groups.len(), 3);
    assert_eq!(r.prepared_groups[0].texture.id, 1);
    assert_eq!(r.prepared_groups[1].texture.id, 2);
    assert_eq!(r.prepared_groups[2].texture.id, 1);
}

#[test]
fn index_ranges_tile_the_whole_index_buffer() {
    let mut r = renderer();
    let sprites = vec![
        sprite(tex(1)),
        sprite(tex(1)),
        sprite(tex(2)),
        sprite(tex(3)),
        sprite(tex(3)),
        sprite(tex(3)),
    ];
    let mesh = r.prepare(&sprites).expect("in-range sprites prepare");
    let total = mesh.indices.len() as u32;
    let mut next_start = 0u32;
    for group in &r.prepared_groups {
        assert_eq!(group.index_start, next_start);
        assert!(group.index_start < group.index_end);
        next_start = group.index_end;
    }
    assert_eq!(next_start, total);
}

#[test]
fn uniform_slots_sit_at_multiples_of_the_stride() {
    let mut r = renderer();
    let sprites = vec![sprite(tex(1)), sprite(tex(2)), sprite(tex(3))];
    r.prepare(&sprites).expect("in-range sprites prepare");
    assert_eq!(r.prepared_groups.len(), 3);
    for (i, group) in r.prepared_groups.iter().enumerate() {
        assert_eq!(group.uniform_offset, i as u64 * ALIGNMENT as u64);
    }
    assert_eq!(r.texture_uniforms_buffer_size, 3 * ALIGNMENT as u64);
}

#[test]
fn buffers_never_shrink_across_frames() {
    let mut r = renderer();
    r.prepare(&vec![sprite(tex(1)); 100]).expect("in-range sprites prepare");
    let vertex_after_first = r.vertex_buffer_size;
    let index_after_first = r.index_buffer_size;
    let uniform_after_first = r.texture_uniforms_buffer_size;

    r.prepare(&vec![sprite(tex(1)); 10]).expect("in-range sprites prepare");
    assert_eq!(r.vertex_buffer_size, vertex_after_first);
    assert_eq!(r.index_buffer_size, index_after_first);
    assert_eq!(r.texture_uniforms_buffer_size, uniform_after_first);

    r.prepare(&vec![sprite(tex(1)); 100]).expect("in-range sprites prepare");
    assert!(r.vertex_buffer_size >= vertex_after_first);
    assert!(r.index_buffer_size >= index_after_first);
    assert!(r.texture_uniforms_buffer_size >= uniform_after_first);
}

#[test]
fn buffers_grow_to_fit_a_large_frame_and_keep_their_size() {
    let mut r = renderer();
    r.prepare(&vec![sprite(tex(1)); 2000]).expect("in-range sprites prepare");
    // 2000 sprites outgrow the construction-time capacity, so the buffers
    // are sized to exactly this frame's data.
    assert_eq!(r.vertex_buffer_size, 2000 * 4 * VERTEX_STRIDE);
    assert_eq!(r.index_buffer_size, 2000 * 6 * INDEX_STRIDE);
    let vertex_grown = r.vertex_buffer_size;
    let index_grown = r.index_buffer_size;
    r.prepare(&vec![sprite(tex(1)); 3]).expect("in-range sprites prepare");
    assert_eq!(r.vertex_buffer_size, vertex_grown);
    assert_eq!(r.index_buffer_size, index_grown);
}

#[test]
fn empty_prepare_then_render_draws_nothing() {
    let mut r = renderer();
    let mesh = r.prepare(&vec![]).expect("an empty list prepares");
    assert_eq!(mesh.vertices.len(), 0);
    assert_eq!(mesh.indices.len(), 0);
    assert_eq!(r.prepared_groups.len(), 0);
    let calls = r.render();
    assert_eq!(calls.len(), 0);
}

#[test]
fn prepare_replaces_the_previous_plan_wholesale() {
    let mut r = renderer();
    r.prepare(&vec![sprite(tex(1)), sprite(tex(2))]).expect("in-range sprites prepare");
    assert_eq!(r.prepared_groups.len(), 2);
    r.prepare(&vec![sprite(tex(9))]).expect("in-range sprites prepare");
    assert_eq!(r.prepared_groups.len(), 1);
    assert_eq!(r.prepared_groups[0].texture.id, 9);
}

#[test]
fn out_of_range_source_rect_is_rejected_unchanged() {
    let mut r = renderer();
    r.prepare(&vec![sprite(tex(1))]).expect("in-range sprites prepare");
    let groups_before = r.prepared_groups.clone();
    let vertex_before = r.vertex_buffer_size;
    let bad = Sprite {
        texture: tex(2),
        src: Rect { x: i32::MAX, y: 0, width: 1, height: 1 },
        tint: Color { r: 0, g: 0, b: 0, a: 0 },
    };
    assert!(matches!(r.prepare(&vec![bad]), Err(Error::SourceRectOutOfRange)));
    assert_eq!(r.prepared_groups, groups_before);
    assert_eq!(r.vertex_buffer_size, vertex_before);
}

#[test]
fn draw_calls_mirror_the_prepared_groups() {
    let mut r = renderer();
    let sprites = vec![sprite(tex(1)), sprite(tex(2)), sprite(tex(2)), sprite(tex(3))];
    r.prepare(&sprites).expect("in-range sprites prepare");
    let calls = r.render();
    assert_eq!(calls.len(), r.prepared_groups.len());
    for (i, call) in calls.iter().enumerate() {
        assert_eq!(call.group, i);
        assert_eq!(call.index_start, r.prepared_groups[i].index_start);
        assert_eq!(call.index_end, r.prepared_groups[i].index_end);
    }
}

#[test]
fn rect_accessors_name_the_corners() {
    let r = Rect::new(-4, 3, 10, 20);
    assert_eq!(r.left(), -4);
    assert_eq!(r.top(), 3);
    assert_eq!(r.right(), 6);
    assert_eq!(r.bottom(), 23);
}
