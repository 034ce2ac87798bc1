//! Flag-byte getters and derived frame counts.

use rustfu::types::{
    AnimationFlags, AnimationVersion, FrameData, Sprite, SpriteFlags, SpriteName, SpritePayload,
};

#[test]
fn version_flag_bits() {
    let v = AnimationVersion(0x1F);
    assert!(v.use_atlas());
    assert!(v.use_local_index());
    assert!(v.use_perfect_hit_test());
    assert!(v.is_optimized());
    assert!(v.use_transform_index());

    let v = AnimationVersion(0x12);
    assert!(!v.use_atlas());
    assert!(v.use_local_index());
    assert!(!v.use_perfect_hit_test());
    assert!(!v.is_optimized());
    assert!(v.use_transform_index());
}

#[test]
fn animation_flag_bits() {
    let f = AnimationFlags(0xFF);
    assert!(f.has_scale());
    assert!(f.has_extension());
    assert!(f.has_hiding_part());
    assert!(f.has_render_radius());
    assert!(f.use_flip());
    assert!(f.use_perfect_hit_test());
    assert!(f.can_hide_part());
    assert!(f.is_extended());

    let f = AnimationFlags(0x41);
    assert!(f.has_scale());
    assert!(!f.has_extension());
    assert!(!f.has_hiding_part());
    assert!(!f.has_render_radius());
    assert!(!f.use_flip());
    assert!(!f.use_perfect_hit_test());
    assert!(f.can_hide_part());
    assert!(!f.is_extended());
}

#[test]
fn sprite_flag_bits() {
    assert!(SpriteFlags(0x40).has_name());
    assert!(SpriteFlags(0xFF).has_name());
    assert!(!SpriteFlags(0x3F).has_name());
}

fn sprite_with(payload: SpritePayload) -> Sprite {
    Sprite {
        id: 1,
        name: SpriteName {
            name: None,
            name_crc: 0,
            base_name_crc: 0,
        },
        flags: SpriteFlags(0),
        frame_data: FrameData::Bytes(vec![]),
        payload,
    }
}

#[test]
fn frame_count_derives_from_the_indexed_stride() {
    // No action ids: stride two.
    let s = sprite_with(SpritePayload::Indexed(vec![0, 0, 1, 2, 3, 4], vec![], vec![]));
    assert_eq!(s.frame_count(), 3);
    // Action ids present: stride three.
    let s = sprite_with(SpritePayload::Indexed(vec![0, 0, 1, 2, 3, 4], vec![], vec![9]));
    assert_eq!(s.frame_count(), 2);
    // A leftover slot that fills no whole frame is not a frame.
    let s = sprite_with(SpritePayload::Indexed(vec![0, 0, 1], vec![], vec![]));
    assert_eq!(s.frame_count(), 1);
    // Every other payload has exactly one frame.
    assert_eq!(sprite_with(SpritePayload::SingleNoAction(5)).frame_count(), 1);
    assert_eq!(
        sprite_with(SpritePayload::Single(5, vec![1])).frame_count(),
        1
    );
    assert_eq!(
        sprite_with(SpritePayload::SingleFrame(vec![5, 6], vec![])).frame_count(),
        1
    );
}
