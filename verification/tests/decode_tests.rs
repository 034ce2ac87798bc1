//! Byte-level decoding tests: primitives, strings, actions, sprites, and
//! whole records, including every error variant.

use rustfu::decoder::{ByteReader, Decode, DecodeError};
use rustfu::types::{Action, AnimationExtension, AnimationIndex, FrameData, Sprite, SpritePayload, TransformTable};

fn le16(v: u16) -> [u8; 2] {
    v.to_le_bytes()
}

fn le32(v: u32) -> [u8; 4] {
    v.to_le_bytes()
}

/// The minimal container: version 0, frame rate 30, no textures, one
/// 64-by-64 shape with id 1 covering the whole atlas, no sprites, no imports.
fn minimal_container() -> Vec<u8> {
    let mut b: Vec<u8> = Vec::new();
    b.push(0x00); // version
    b.extend_from_slice(&le16(0)); // reserved
    b.push(30); // frame rate
    b.extend_from_slice(&le16(0)); // texture count
    b.extend_from_slice(&le16(1)); // shape count
    b.extend_from_slice(&le16(1)); // shape id
    b.extend_from_slice(&le16(0)); // texture index
    b.extend_from_slice(&le16(0)); // top
    b.extend_from_slice(&le16(0)); // left
    b.extend_from_slice(&le16(65535)); // bottom
    b.extend_from_slice(&le16(65535)); // right
    b.extend_from_slice(&le16(64)); // width
    b.extend_from_slice(&le16(64)); // height
    b.extend_from_slice(&le32(0)); // offset x bits
    b.extend_from_slice(&le32(0)); // offset y bits
    b.extend_from_slice(&le16(0)); // sprite count
    b.extend_from_slice(&le16(0)); // import count
    b
}

#[test]
fn read_little_endian_primitives() {
    let bytes = [0x34u8, 0x12];
    let mut r = ByteReader::new(&bytes);
    assert_eq!(r.read_u16(), Ok(0x1234));

    let bytes = [0x78u8, 0x56, 0x34, 0x12];
    let mut r = ByteReader::new(&bytes);
    assert_eq!(r.read_u32(), Ok(0x12345678));

    let bytes = [0xFFu8, 0xFF];
    let mut r = ByteReader::new(&bytes);
    let v = <i16 as Decode>::decode(&mut r).unwrap();
    assert_eq!(v, -1);

    let bytes: [u8; 1] = [0xFE];
    let mut r = ByteReader::new(&bytes);
    let v = <i8 as Decode>::decode(&mut r).unwrap();
    assert_eq!(v, -2);

    let empty: [u8; 0] = [];
    let mut r = ByteReader::new(&empty);
    assert_eq!(r.read_u8(), Err(DecodeError::Truncated));
}

#[test]
fn decode_minimal_container() {
    let bytes = minimal_container();
    let animation = rustfu::types::Animation::from_bytes(&bytes).unwrap();
    assert_eq!(animation.version.0, 0);
    assert_eq!(animation.frame_rate, 30);
    assert!(animation.index.is_none());
    assert!(animation.texture.is_none());
    assert!(animation.transform.is_none());
    assert_eq!(animation.shapes.len(), 1);
    assert_eq!(animation.sprites.len(), 0);
    assert_eq!(animation.imports.len(), 0);
    let shape = animation.shapes.get(&1).unwrap();
    assert_eq!(shape.id, 1);
    assert_eq!(shape.top, 0);
    assert_eq!(shape.left, 0);
    assert_eq!(shape.bottom, 65535);
    assert_eq!(shape.right, 65535);
    assert_eq!(shape.width, 64);
    assert_eq!(shape.height, 64);
    assert_eq!(shape.offset_x_bits, 0);
    assert_eq!(shape.offset_y_bits, 0);
}

#[test]
fn decode_ignores_trailing_bytes() {
    let mut bytes = minimal_container();
    bytes.extend_from_slice(&[0xAA, 0xBB, 0xCC]);
    assert!(rustfu::types::Animation::from_bytes(&bytes).is_ok());
}

#[test]
fn truncation_mid_shape_is_a_hard_failure() {
    let bytes = minimal_container();
    // Cut inside the shape record: no Animation value at all comes back.
    let cut = &bytes[..bytes.len() - 12];
    let res = rustfu::types::Animation::from_bytes(cut);
    assert_eq!(res.err(), Some(DecodeError::Truncated));
}

#[test]
fn truncation_of_every_prefix_never_panics() {
    let bytes = minimal_container();
    for n in 0..bytes.len() {
        let res = rustfu::types::Animation::from_bytes(&bytes[..n]);
        assert_eq!(res.err(), Some(DecodeError::Truncated));
    }
}

#[test]
fn duplicate_shape_ids_keep_the_last_record() {
    let mut b: Vec<u8> = Vec::new();
    b.push(0x00);
    b.extend_from_slice(&le16(0));
    b.push(30);
    b.extend_from_slice(&le16(0));
    b.extend_from_slice(&le16(2)); // two shapes, same id
    for width in [10i16, 20i16] {
        b.extend_from_slice(&le16(7)); // id
        b.extend_from_slice(&le16(0));
        b.extend_from_slice(&le16(0));
        b.extend_from_slice(&le16(0));
        b.extend_from_slice(&le16(65535));
        b.extend_from_slice(&le16(65535));
        b.extend_from_slice(&(width.to_le_bytes()));
        b.extend_from_slice(&le16(30));
        b.extend_from_slice(&le32(0));
        b.extend_from_slice(&le32(0));
    }
    b.extend_from_slice(&le16(0));
    b.extend_from_slice(&le16(0));
    let animation = rustfu::types::Animation::from_bytes(&b).unwrap();
    assert_eq!(animation.shapes.len(), 1);
    assert_eq!(animation.shapes.get(&7).unwrap().width, 20);
}

#[test]
fn string_rejects_invalid_utf8() {
    // RunScript with a lone continuation byte in its name.
    let bytes = [3u8, 1, 0xFF, 0x00];
    let mut r = ByteReader::new(&bytes);
    assert_eq!(
        <Action as Decode>::decode(&mut r).err(),
        Some(DecodeError::InvalidUtf8)
    );
}

#[test]
fn string_decodes_multibyte_utf8() {
    let bytes = [3u8, 1, 0xC3, 0xA9, 0x00];
    let mut r = ByteReader::new(&bytes);
    let action = <Action as Decode>::decode(&mut r).unwrap();
    assert_eq!(action, Action::RunScript(String::from("\u{e9}")));
}

#[test]
fn string_truncated_before_terminator() {
    let bytes = [1u8, 1, b'a'];
    let mut r = ByteReader::new(&bytes);
    assert_eq!(
        <Action as Decode>::decode(&mut r).err(),
        Some(DecodeError::Truncated)
    );
}

#[test]
fn action_goto_arity() {
    let bytes = [1u8, 2, b'a', 0, 55];
    let mut r = ByteReader::new(&bytes);
    let action = <Action as Decode>::decode(&mut r).unwrap();
    assert_eq!(action, Action::GoTo(String::from("a"), Some(55)));

    let bytes = [1u8, 1, b'a', 0];
    let mut r = ByteReader::new(&bytes);
    let action = <Action as Decode>::decode(&mut r).unwrap();
    assert_eq!(action, Action::GoTo(String::from("a"), None));
}

#[test]
fn action_fixed_kinds() {
    for (tag, expected) in [
        (2u8, Action::GoToStatic),
        (5, Action::Hit),
        (6, Action::Delete),
        (7, Action::End),
    ] {
        let bytes = [tag, 0];
        let mut r = ByteReader::new(&bytes);
        assert_eq!(<Action as Decode>::decode(&mut r).unwrap(), expected);
    }
}

#[test]
fn action_goto_random_plain_drops_the_selector_name() {
    let mut bytes = vec![4u8, 3];
    bytes.extend_from_slice(b"x\0y\0z\0");
    let mut r = ByteReader::new(&bytes);
    let action = <Action as Decode>::decode(&mut r).unwrap();
    assert_eq!(
        action,
        Action::GoToRandom(vec![String::from("y"), String::from("z")], vec![])
    );
}

#[test]
fn action_goto_random_optimized_layout() {
    let mut bytes = vec![4u8, 5];
    bytes.extend_from_slice(b"#optimized\0a\0b\0");
    bytes.push(10);
    bytes.push(20);
    let mut r = ByteReader::new(&bytes);
    let action = <Action as Decode>::decode(&mut r).unwrap();
    assert_eq!(
        action,
        Action::GoToRandom(
            vec![
                String::from("#optimized"),
                String::from("a"),
                String::from("b")
            ],
            vec![10, 20]
        )
    );
}

#[test]
fn action_goto_if_previous_pairs_and_parity_default() {
    let mut bytes = vec![8u8, 5];
    bytes.extend_from_slice(b"p1\0n1\0p2\0n2\0d\0");
    let mut r = ByteReader::new(&bytes);
    let action = <Action as Decode>::decode(&mut r).unwrap();
    assert_eq!(
        action,
        Action::GoToIfPrevious(
            vec![String::from("p1"), String::from("p2")],
            vec![String::from("n1"), String::from("n2")],
            Some(String::from("d"))
        )
    );

    let mut bytes = vec![8u8, 4];
    bytes.extend_from_slice(b"p1\0n1\0");
    let mut r = ByteReader::new(&bytes);
    let action = <Action as Decode>::decode(&mut r).unwrap();
    assert_eq!(
        action,
        Action::GoToIfPrevious(vec![String::from("p1")], vec![String::from("n1")], None)
    );
}

#[test]
fn action_add_particle_thresholds() {
    let mut bytes = vec![9u8, 4];
    bytes.extend_from_slice(&7i32.to_le_bytes());
    bytes.extend_from_slice(&1i16.to_le_bytes());
    bytes.extend_from_slice(&2i16.to_le_bytes());
    bytes.extend_from_slice(&3i16.to_le_bytes());
    let mut r = ByteReader::new(&bytes);
    let action = <Action as Decode>::decode(&mut r).unwrap();
    assert_eq!(action, Action::AddParticle(7, Some(1), Some(2), Some(3)));

    let mut bytes = vec![9u8, 1];
    bytes.extend_from_slice(&7i32.to_le_bytes());
    let mut r = ByteReader::new(&bytes);
    let action = <Action as Decode>::decode(&mut r).unwrap();
    assert_eq!(action, Action::AddParticle(7, None, None, None));
}

#[test]
fn action_set_radius_signed() {
    let bytes = [10u8, 1, 0xFF];
    let mut r = ByteReader::new(&bytes);
    assert_eq!(
        <Action as Decode>::decode(&mut r).unwrap(),
        Action::SetRadius(-1)
    );
}

#[test]
fn action_unknown_tag_is_rejected() {
    let bytes = [11u8, 0];
    let mut r = ByteReader::new(&bytes);
    assert_eq!(
        <Action as Decode>::decode(&mut r).err(),
        Some(DecodeError::UnknownActionTag(11))
    );
}

#[test]
fn frame_data_widths() {
    let mut bytes = vec![2u8];
    bytes.extend_from_slice(&2u32.to_le_bytes());
    bytes.extend_from_slice(&0x1234u16.to_le_bytes());
    bytes.extend_from_slice(&0x5678u16.to_le_bytes());
    let mut r = ByteReader::new(&bytes);
    let fd = <FrameData as Decode>::decode(&mut r).unwrap();
    assert_eq!(fd, FrameData::Shorts(vec![0x1234, 0x5678]));

    let mut bytes = vec![4u8];
    bytes.extend_from_slice(&1u32.to_le_bytes());
    bytes.extend_from_slice(&0xDEADBEEFu32.to_le_bytes());
    let mut r = ByteReader::new(&bytes);
    let fd = <FrameData as Decode>::decode(&mut r).unwrap();
    assert_eq!(fd, FrameData::Ints(vec![0xDEADBEEF]));

    let mut bytes = vec![9u8];
    bytes.extend_from_slice(&0u32.to_le_bytes());
    let mut r = ByteReader::new(&bytes);
    assert_eq!(
        <FrameData as Decode>::decode(&mut r).err(),
        Some(DecodeError::UnknownFrameDataTag(9))
    );
}

#[test]
fn sprite_with_name_and_payload() {
    let mut bytes = vec![2u8]; // tag: single child, no actions
    bytes.extend_from_slice(&5i16.to_le_bytes()); // sprite id
    bytes.push(0x40); // flags: has name
    bytes.extend_from_slice(b"s\0");
    bytes.extend_from_slice(&0i32.to_le_bytes()); // name crc
    bytes.extend_from_slice(&0i32.to_le_bytes()); // base name crc
    bytes.extend_from_slice(&7i16.to_le_bytes()); // child id
    bytes.push(1); // frame data: bytes
    bytes.extend_from_slice(&1u32.to_le_bytes());
    bytes.push(0);
    let mut r = ByteReader::new(&bytes);
    let sprite = <Sprite as Decode>::decode(&mut r).unwrap();
    assert_eq!(sprite.id, 5);
    assert_eq!(sprite.name.name, Some(String::from("s")));
    assert!(sprite.flags.has_name());
    assert_eq!(sprite.payload, SpritePayload::SingleNoAction(7));
    assert_eq!(sprite.frame_data, FrameData::Bytes(vec![0]));
    assert_eq!(sprite.frame_count(), 1);
}

#[test]
fn sprite_unknown_tag_still_reads_its_tape_first() {
    // Unknown payload selector, complete frame tape: the unknown tag wins.
    let mut bytes = vec![9u8];
    bytes.extend_from_slice(&5i16.to_le_bytes());
    bytes.push(0); // flags: no name
    bytes.extend_from_slice(&0i32.to_le_bytes());
    bytes.extend_from_slice(&0i32.to_le_bytes());
    bytes.push(1);
    bytes.extend_from_slice(&0u32.to_le_bytes());
    let mut r = ByteReader::new(&bytes);
    assert_eq!(
        <Sprite as Decode>::decode(&mut r).err(),
        Some(DecodeError::UnknownSpriteTag(9))
    );

    // Unknown payload selector, truncated frame tape: truncation wins.
    let mut bytes = vec![9u8];
    bytes.extend_from_slice(&5i16.to_le_bytes());
    bytes.push(0);
    bytes.extend_from_slice(&0i32.to_le_bytes());
    bytes.extend_from_slice(&0i32.to_le_bytes());
    bytes.push(1);
    bytes.extend_from_slice(&5u32.to_le_bytes()); // claims five elements
    bytes.push(0); // but holds one
    let mut r = ByteReader::new(&bytes);
    assert_eq!(
        <Sprite as Decode>::decode(&mut r).err(),
        Some(DecodeError::Truncated)
    );
}

#[test]
fn sprite_indexed_payload() {
    let mut bytes = vec![4u8];
    bytes.extend_from_slice(&1i16.to_le_bytes());
    bytes.push(0);
    bytes.extend_from_slice(&0i32.to_le_bytes());
    bytes.extend_from_slice(&0i32.to_le_bytes());
    bytes.extend_from_slice(&2u16.to_le_bytes()); // frame positions
    bytes.extend_from_slice(&0i32.to_le_bytes());
    bytes.extend_from_slice(&0i32.to_le_bytes());
    bytes.extend_from_slice(&2u16.to_le_bytes()); // child ids and counts
    bytes.extend_from_slice(&1i16.to_le_bytes());
    bytes.extend_from_slice(&10i16.to_le_bytes());
    bytes.extend_from_slice(&0u16.to_le_bytes()); // action ids
    bytes.push(1);
    bytes.extend_from_slice(&0u32.to_le_bytes());
    let mut r = ByteReader::new(&bytes);
    let sprite = <Sprite as Decode>::decode(&mut r).unwrap();
    assert_eq!(
        sprite.payload,
        SpritePayload::Indexed(vec![0, 0], vec![1, 10], vec![])
    );
    assert_eq!(sprite.frame_count(), 1);
}

#[test]
fn transform_table_pools_and_actions() {
    let mut bytes = Vec::new();
    bytes.extend_from_slice(&2u32.to_le_bytes()); // colors
    bytes.extend_from_slice(&1.0f32.to_bits().to_le_bytes());
    bytes.extend_from_slice(&0.5f32.to_bits().to_le_bytes());
    bytes.extend_from_slice(&0u32.to_le_bytes()); // rotations
    bytes.extend_from_slice(&1u32.to_le_bytes()); // translations
    bytes.extend_from_slice(&2.0f32.to_bits().to_le_bytes());
    bytes.extend_from_slice(&1u32.to_le_bytes()); // actions
    bytes.extend_from_slice(&[5u8, 0]); // one Hit action
    let mut r = ByteReader::new(&bytes);
    let table = <TransformTable as Decode>::decode(&mut r).unwrap();
    assert_eq!(
        table.colors,
        vec![1.0f32.to_bits(), 0.5f32.to_bits()]
    );
    assert_eq!(table.rotations, vec![]);
    assert_eq!(table.translations, vec![2.0f32.to_bits()]);
    assert_eq!(table.actions, vec![Action::Hit]);
}

#[test]
fn extension_heights_bump_and_wrap() {
    let mut bytes = Vec::new();
    bytes.extend_from_slice(&1i32.to_le_bytes()); // flags: heights only
    bytes.extend_from_slice(&2u16.to_le_bytes());
    bytes.extend_from_slice(&1i32.to_le_bytes());
    bytes.push(5);
    bytes.extend_from_slice(&2i32.to_le_bytes());
    bytes.push(127);
    let mut r = ByteReader::new(&bytes);
    let ext = <AnimationExtension as Decode>::decode(&mut r).unwrap();
    let heights = ext.heights.unwrap();
    assert_eq!(heights.get(&1), Some(&6));
    assert_eq!(heights.get(&2), Some(&-128));
    assert!(ext.highlight_color.is_none());
}

#[test]
fn action_goto_random_zero_count_wraps_to_the_byte_maximum() {
    // A declared parameter count of zero wraps to 255 names to read, which
    // runs off the end of the record.
    let bytes = [4u8, 0, b'x', 0];
    let mut r = ByteReader::new(&bytes);
    assert_eq!(
        <Action as Decode>::decode(&mut r).err(),
        Some(DecodeError::Truncated)
    );
}

#[test]
fn index_hidden_parts_names_and_extension() {
    let mut b: Vec<u8> = Vec::new();
    b.push(0x02 | 0x04 | 0x40 | 0x80); // file names, hiding parts, hideable parts, extension
    b.extend_from_slice(&le16(1)); // one file name
    b.extend_from_slice(b"f\0");
    b.push(1); // one part this is hidden by
    b.extend_from_slice(&1i32.to_le_bytes());
    b.extend_from_slice(&2i32.to_le_bytes());
    b.push(1); // one part to be hidden
    b.extend_from_slice(b"part\0");
    b.extend_from_slice(&3i32.to_le_bytes());
    b.extend_from_slice(&0i32.to_le_bytes()); // extension flags: nothing inside
    b.extend_from_slice(&le16(0)); // no animation files
    let mut r = ByteReader::new(&b);
    let index = <AnimationIndex as Decode>::decode(&mut r).unwrap();
    assert!(index.scale_bits.is_none());
    assert!(index.render_radius_bits.is_none());
    assert_eq!(index.file_names, Some(vec![String::from("f")]));
    let hidden_by = index.parts_hidden_by.unwrap();
    assert_eq!(hidden_by.len(), 1);
    assert_eq!(hidden_by[0].crc_key, 1);
    assert_eq!(hidden_by[0].crc_to_hide, 2);
    let to_hide = index.parts_to_be_hidden.unwrap();
    assert_eq!(to_hide.len(), 1);
    assert_eq!(to_hide[0].item_name, "part");
    assert_eq!(to_hide[0].crc_key, 3);
    let ext = index.extension.unwrap();
    assert!(ext.heights.is_none());
    assert!(ext.highlight_color.is_none());
    assert_eq!(index.animation_files.len(), 0);
}

#[test]
fn full_container_with_every_optional_section() {
    let mut b: Vec<u8> = Vec::new();
    b.push(0x12); // version: local index + transform table
    b.extend_from_slice(&le16(0)); // reserved
    b.push(25); // frame rate
    b.push(0x01); // index flags: scale only
    b.extend_from_slice(&2.0f32.to_bits().to_le_bytes()); // scale
    b.extend_from_slice(&le16(1)); // one animation file
    b.extend_from_slice(b"af\0");
    b.extend_from_slice(&9i32.to_le_bytes());
    b.extend_from_slice(&3i16.to_le_bytes());
    b.extend_from_slice(&le16(1)); // texture count: the texture follows
    b.extend_from_slice(b"atlas\0");
    b.extend_from_slice(&5i32.to_le_bytes());
    b.extend_from_slice(&le16(1)); // one shape
    b.extend_from_slice(&le16(1)); // id
    b.extend_from_slice(&le16(0)); // texture index
    b.extend_from_slice(&le16(0)); // top
    b.extend_from_slice(&le16(0)); // left
    b.extend_from_slice(&le16(65535)); // bottom
    b.extend_from_slice(&le16(65535)); // right
    b.extend_from_slice(&le16(64)); // width
    b.extend_from_slice(&le16(64)); // height
    b.extend_from_slice(&le32(0));
    b.extend_from_slice(&le32(0));
    b.extend_from_slice(&0u32.to_le_bytes()); // colors
    b.extend_from_slice(&0u32.to_le_bytes()); // rotations
    b.extend_from_slice(&2u32.to_le_bytes()); // translations
    b.extend_from_slice(&3.0f32.to_bits().to_le_bytes());
    b.extend_from_slice(&4.0f32.to_bits().to_le_bytes());
    b.extend_from_slice(&0u32.to_le_bytes()); // actions
    b.extend_from_slice(&le16(1)); // one sprite
    b.push(2); // tag: single child, no actions
    b.extend_from_slice(&2i16.to_le_bytes()); // sprite id
    b.push(0); // flags
    b.extend_from_slice(&0i32.to_le_bytes());
    b.extend_from_slice(&0i32.to_le_bytes());
    b.extend_from_slice(&1i16.to_le_bytes()); // child: the shape
    b.push(1); // tape: bytes
    b.extend_from_slice(&2u32.to_le_bytes());
    b.extend_from_slice(&[2, 0]); // translation instruction, offset 0
    b.extend_from_slice(&le16(1)); // one import
    b.extend_from_slice(&4i16.to_le_bytes());
    b.extend_from_slice(b"imp\0");
    b.extend_from_slice(&8i32.to_le_bytes());

    let animation = rustfu::types::Animation::from_bytes(&b).unwrap();
    assert!(animation.version.use_local_index());
    assert!(animation.version.use_transform_index());
    assert_eq!(animation.frame_rate, 25);
    let index = animation.index.as_ref().unwrap();
    assert_eq!(index.scale_bits, Some(2.0f32.to_bits()));
    assert!(index.render_radius_bits.is_none());
    assert_eq!(index.animation_files.len(), 1);
    assert_eq!(index.animation_files[0].name, "af");
    assert_eq!(index.animation_files[0].crc, 9);
    assert_eq!(index.animation_files[0].file_index, 3);
    let texture = animation.texture.as_ref().unwrap();
    assert_eq!(texture.name, "atlas");
    assert_eq!(texture.crc, 5);
    let table = animation.transform.as_ref().unwrap();
    assert_eq!(
        table.translations,
        vec![3.0f32.to_bits(), 4.0f32.to_bits()]
    );
    assert_eq!(animation.imports.len(), 1);
    assert_eq!(animation.imports[0].id, 4);
    assert_eq!(animation.imports[0].name, "imp");
    assert_eq!(animation.imports[0].crc, 8);

    // The decoded record renders end to end: the sprite's tape instruction
    // resolves through the decoded pool.
    let root = animation.sprites.get(&2).unwrap().clone();
    let entries = rustfu::render::Measure::run(&animation, &root, 1.0f32.to_bits(), 16);
    assert_eq!(entries.len(), 1);
    assert_eq!(entries[0].shape.id, 1);
    assert_eq!(
        entries[0].transform.ops,
        vec![
            rustfu::render::Operation::Translate(3.0f32.to_bits(), 4.0f32.to_bits()),
            rustfu::render::Operation::Scale(1.0f32.to_bits(), 1.0f32.to_bits()),
        ]
    );
}

#[test]
fn extension_highlight_color_gets_unit_alpha() {
    let mut bytes = Vec::new();
    bytes.extend_from_slice(&2i32.to_le_bytes()); // flags: color only
    bytes.extend_from_slice(&0.25f32.to_bits().to_le_bytes());
    bytes.extend_from_slice(&0.5f32.to_bits().to_le_bytes());
    bytes.extend_from_slice(&0.75f32.to_bits().to_le_bytes());
    let mut r = ByteReader::new(&bytes);
    let ext = <AnimationExtension as Decode>::decode(&mut r).unwrap();
    assert!(ext.heights.is_none());
    let color = ext.highlight_color.unwrap();
    assert_eq!(color.red_bits, 0.25f32.to_bits());
    assert_eq!(color.green_bits, 0.5f32.to_bits());
    assert_eq!(color.blue_bits, 0.75f32.to_bits());
    assert_eq!(color.alpha_bits, 1.0f32.to_bits());
}
