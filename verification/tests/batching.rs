use spright::batch::group_sprites;
use spright::geometry::Color;
use spright::geometry::Rect;
use spright::geometry::Sprite;
use spright::geometry::TextureInfo;

fn tex(id: u64) -> TextureInfo {
    TextureInfo { id, width: 64, height: 64, is_mask: false }
}

fn sprite(texture: TextureInfo) -> Sprite {
    Sprite {
        texture,
        src: Rect { x: 0, y: 0, width: 8, height: 8 },
        tint: Color { r: 255, g: 255, b: 255, a: 255 },
    }
}

#[test]
fn empty_input_yields_zero_groups() {
    let groups = group_sprites(&vec![]);
    assert_eq!(groups.len(), 0);
}

#[test]
fn single_sprite_single_group() {
    let groups = group_sprites(&vec![sprite(tex(1))]);
    assert_eq!(groups.len(), 1);
    assert_eq!(groups[0].start, 0);
    assert_eq!(groups[0].end, 1);
    assert_eq!(groups[0].texture.id, 1);
}

#[test]
fn same_texture_run_stays_one_group() {
    let sprites = vec![sprite(tex(7)); 5];
    let groups = group_sprites(&sprites);
    assert_eq!(groups.len(), 1);
    assert_eq!(groups[0].start, 0);
    assert_eq!(groups[0].end, 5);
    assert_eq!(groups[0].texture.id, 7);
}

#[test]
fn non_adjacent_runs_are_not_merged() {
    // Textures A, B, A: three distinct runs, never two.
    let sprites = vec![sprite(tex(1)), sprite(tex(2)), sprite(tex(1))];
    let groups = group_sprites(&sprites);
    assert_eq!(groups.len(), 3);
    assert_eq!((groups[0].start, groups[0].end, groups[0].texture.id), (0, 1, 1));
    assert_eq!((groups[1].start, groups[1].end, groups[1].texture.id), (1, 2, 2));
    assert_eq!((groups[2].start, groups[2].end, groups[2].texture.id), (2, 3, 1));
}

#[test]
fn adjacent_runs_merge_and_order_is_kept() {
    let sprites = vec![
        sprite(tex(1)),
        sprite(tex(1)),
        sprite(tex(2)),
        sprite(tex(2)),
        sprite(tex(2)),
        sprite(tex(3)),
    ];
    let groups = group_sprites(&sprites);
    assert_eq!(groups.len(), 3);
    assert_eq!((groups[0].start, groups[0].end), (0, 2));
    assert_eq!((groups[1].start, groups[1].end), (2, 5));
    assert_eq!((groups[2].start, groups[2].end), (5, 6));
    assert_eq!(groups[0].texture.id, 1);
    assert_eq!(groups[1].texture.id, 2);
    assert_eq!(groups[2].texture.id, 3);
}

#[test]
fn identity_is_by_id_not_by_contents() {
    // The textures look identical — same extent, same format — but carry
    // different ids, so their sprites stay in different groups.
    let groups = group_sprites(&vec![sprite(tex(1)), sprite(tex(2))]);
    assert_eq!(groups.len(), 2);
    assert_ne!(groups[0].texture.id, groups[1].texture.id);
}
