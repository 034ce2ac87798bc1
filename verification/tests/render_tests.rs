//! Compositor tests: traversal order, frame selection, error skipping, the
//! draw/measure agreement, and numeric evaluation of composed operations.

use std::collections::HashMap;

use rustfu::render::{render_sprite, Measure, Operation, RenderEntry, SpriteTransform};
use rustfu::types::{
    Animation, AnimationVersion, FrameData, Shape, Sprite, SpriteFlags, SpriteName, SpritePayload,
};

fn shape(id: i16, width: i16, height: i16) -> Shape {
    Shape {
        id,
        texture_index: 0,
        top: 0,
        left: 0,
        bottom: 65535,
        right: 65535,
        width,
        height,
        offset_x_bits: 0.0f32.to_bits(),
        offset_y_bits: 0.0f32.to_bits(),
    }
}

fn sprite(id: i16, payload: SpritePayload, tape: Vec<u8>) -> Sprite {
    Sprite {
        id,
        name: SpriteName {
            name: None,
            name_crc: 0,
            base_name_crc: 0,
        },
        flags: SpriteFlags(0),
        frame_data: FrameData::Bytes(tape),
        payload,
    }
}

fn animation(shapes: Vec<Shape>, sprites: Vec<Sprite>) -> Animation {
    let mut shape_map = HashMap::new();
    for s in shapes {
        shape_map.insert(s.id, s);
    }
    let mut sprite_map = HashMap::new();
    for s in sprites {
        sprite_map.insert(s.id, s);
    }
    Animation {
        version: AnimationVersion(0),
        frame_rate: 30,
        index: None,
        texture: None,
        shapes: shape_map,
        transform: None,
        sprites: sprite_map,
        imports: Vec::new(),
    }
}

fn render_at(anim: &Animation, root: &Sprite, frame: u32) -> Vec<RenderEntry> {
    let mut sink = Measure {
        entries: Vec::new(),
    };
    render_sprite(
        &mut sink,
        anim,
        root,
        &SpriteTransform::identity(),
        frame,
        64,
    );
    sink.entries
}

/// Row-vector affine matrix [m11 m12; m21 m22; m31 m32].
#[derive(Clone, Copy, Debug, PartialEq)]
struct Affine {
    m11: f32,
    m12: f32,
    m21: f32,
    m22: f32,
    m31: f32,
    m32: f32,
}

const IDENTITY: Affine = Affine {
    m11: 1.0,
    m12: 0.0,
    m21: 0.0,
    m22: 1.0,
    m31: 0.0,
    m32: 0.0,
};

fn then(a: Affine, b: Affine) -> Affine {
    Affine {
        m11: a.m11 * b.m11 + a.m12 * b.m21,
        m12: a.m11 * b.m12 + a.m12 * b.m22,
        m21: a.m21 * b.m11 + a.m22 * b.m21,
        m22: a.m21 * b.m12 + a.m22 * b.m22,
        m31: a.m31 * b.m11 + a.m32 * b.m21 + b.m31,
        m32: a.m31 * b.m12 + a.m32 * b.m22 + b.m32,
    }
}

/// Evaluate an operation sequence: the affine part left to right, and the
/// color fold starting from opaque white.
fn eval_ops(ops: &[Operation]) -> (Affine, [f32; 4]) {
    let mut m = IDENTITY;
    let mut c = [1.0f32, 1.0, 1.0, 1.0];
    for op in ops {
        match *op {
            Operation::Translate(x, y) => {
                let t = Affine {
                    m31: f32::from_bits(x),
                    m32: f32::from_bits(y),
                    ..IDENTITY
                };
                m = then(m, t);
            }
            Operation::Rotate(a, b, cc, d) => {
                let t = Affine {
                    m11: f32::from_bits(a),
                    m12: f32::from_bits(b),
                    m21: f32::from_bits(cc),
                    m22: f32::from_bits(d),
                    m31: 0.0,
                    m32: 0.0,
                };
                m = then(m, t);
            }
            Operation::Scale(sx, sy) => {
                let t = Affine {
                    m11: f32::from_bits(sx),
                    m22: f32::from_bits(sy),
                    ..IDENTITY
                };
                m = then(m, t);
            }
            Operation::ColorMultiply(r, g, b, a) => {
                c = [
                    c[0] * f32::from_bits(r),
                    c[1] * f32::from_bits(g),
                    c[2] * f32::from_bits(b),
                    c[3] * f32::from_bits(a),
                ];
            }
            Operation::ColorAdd(r, g, b, a) => {
                c = [
                    c[0] + f32::from_bits(r),
                    c[1] + f32::from_bits(g),
                    c[2] + f32::from_bits(b),
                    c[3] + f32::from_bits(a),
                ];
            }
        }
    }
    (m, c)
}

fn point(m: Affine, x: f32, y: f32) -> (f32, f32) {
    (
        x * m.m11 + y * m.m21 + m.m31,
        x * m.m12 + y * m.m22 + m.m32,
    )
}

/// Union bounding box of the entries' transformed shape footprints.
fn bounding_box(entries: &[RenderEntry]) -> [f32; 4] {
    let mut bb = [f32::INFINITY, f32::INFINITY, f32::NEG_INFINITY, f32::NEG_INFINITY];
    for e in entries {
        let (m, _) = eval_ops(&e.transform.ops);
        let x0 = f32::from_bits(e.shape.offset_x_bits);
        let y0 = f32::from_bits(e.shape.offset_y_bits);
        let x1 = x0 + e.shape.width as f32;
        let y1 = y0 + e.shape.height as f32;
        for (x, y) in [(x0, y0), (x1, y0), (x0, y1), (x1, y1)] {
            let (px, py) = point(m, x, y);
            bb[0] = bb[0].min(px);
            bb[1] = bb[1].min(py);
            bb[2] = bb[2].max(px);
            bb[3] = bb[3].max(py);
        }
    }
    bb
}

#[test]
fn measure_minimal_shape_at_scale_one() {
    let anim = animation(
        vec![shape(1, 64, 64)],
        vec![sprite(2, SpritePayload::SingleNoAction(1), vec![0])],
    );
    let root = anim.sprites.get(&2).unwrap().clone();
    let entries = Measure::run(&anim, &root, 1.0f32.to_bits(), 64);
    assert_eq!(entries.len(), 1);
    assert_eq!(entries[0].shape.id, 1);
    assert_eq!(bounding_box(&entries), [0.0, 0.0, 64.0, 64.0]);
}

#[test]
fn measure_equals_instrumented_render() {
    let anim = animation(
        vec![shape(10, 8, 8), shape(11, 4, 4)],
        vec![sprite(
            1,
            SpritePayload::SingleFrame(vec![10, 11], vec![]),
            vec![0, 0],
        )],
    );
    let root = anim.sprites.get(&1).unwrap().clone();
    let measured = Measure::run(&anim, &root, 1.0f32.to_bits(), 64);

    let mut sink = Measure {
        entries: Vec::new(),
    };
    render_sprite(
        &mut sink,
        &anim,
        &root,
        &SpriteTransform::scale(1.0f32.to_bits(), 1.0f32.to_bits()),
        0,
        64,
    );
    assert_eq!(measured, sink.entries);
    assert_eq!(bounding_box(&measured), bounding_box(&sink.entries));
}

#[test]
fn render_is_deterministic() {
    let anim = animation(
        vec![shape(10, 8, 8), shape(11, 4, 4)],
        vec![sprite(
            1,
            SpritePayload::Indexed(vec![0, 0, 1, 2], vec![1, 10, 1, 11], vec![]),
            vec![0, 0],
        )],
    );
    let root = anim.sprites.get(&1).unwrap().clone();
    let first = render_at(&anim, &root, 1);
    let second = render_at(&anim, &root, 1);
    assert_eq!(first, second);
}

#[test]
fn indexed_frames_cycle_modulo_frame_count() {
    let anim = animation(
        vec![shape(10, 8, 8), shape(11, 4, 4)],
        vec![sprite(
            1,
            SpritePayload::Indexed(vec![0, 0, 1, 2], vec![1, 10, 1, 11], vec![]),
            vec![0, 0],
        )],
    );
    let root = anim.sprites.get(&1).unwrap().clone();
    assert_eq!(root.frame_count(), 2);
    let frame0 = render_at(&anim, &root, 0);
    let frame1 = render_at(&anim, &root, 1);
    assert_eq!(frame0.len(), 1);
    assert_eq!(frame0[0].shape.id, 10);
    assert_eq!(frame1.len(), 1);
    assert_eq!(frame1[0].shape.id, 11);
    assert_ne!(frame0, frame1);
    assert_eq!(frame0, render_at(&anim, &root, 2));
    assert_eq!(frame1, render_at(&anim, &root, 3));
    assert_eq!(frame0, render_at(&anim, &root, 2000));
}

#[test]
fn indexed_stride_three_with_actions() {
    // With action ids present the stride is three; the third slot is the
    // action offset, skipped by the compositor.
    let anim = animation(
        vec![shape(10, 8, 8), shape(11, 4, 4)],
        vec![sprite(
            1,
            SpritePayload::Indexed(vec![0, 0, 9, 1, 2, 9], vec![1, 10, 1, 11], vec![3]),
            vec![0, 0],
        )],
    );
    let root = anim.sprites.get(&1).unwrap().clone();
    assert_eq!(root.frame_count(), 2);
    let frame0 = render_at(&anim, &root, 0);
    let frame1 = render_at(&anim, &root, 1);
    assert_eq!(frame0[0].shape.id, 10);
    assert_eq!(frame1[0].shape.id, 11);
}

#[test]
fn color_order_is_observable() {
    let half = 0.5f32.to_bits();
    let one = 1.0f32.to_bits();
    let fifth = 0.2f32.to_bits();
    let zero = 0.0f32.to_bits();
    let multiply = SpriteTransform::color_multiply(half, half, half, one);
    let add = SpriteTransform::color_add(fifth, zero, zero, zero);
    let multiply_then_add = multiply.clone().combine(&add);
    let add_then_multiply = add.combine(&multiply);
    assert_ne!(multiply_then_add.ops, add_then_multiply.ops);

    // Applied to opaque white, multiply-then-add gives (0.7, 0.5, 0.5, 1.0).
    let (_, c1) = eval_ops(&multiply_then_add.ops);
    assert!((c1[0] - 0.7).abs() < 1e-6);
    assert!((c1[1] - 0.5).abs() < 1e-6);
    assert!((c1[2] - 0.5).abs() < 1e-6);
    assert!((c1[3] - 1.0).abs() < 1e-6);

    // The reversed order gives the different value (0.6, 0.5, 0.5, 1.0).
    let (_, c2) = eval_ops(&add_then_multiply.ops);
    assert!((c2[0] - 0.6).abs() < 1e-6);
    assert!((c2[1] - 0.5).abs() < 1e-6);
    assert!((c2[2] - 0.5).abs() < 1e-6);
    assert!((c2[3] - 1.0).abs() < 1e-6);
    assert_ne!(c1, c2);
}

#[test]
fn tape_transform_combines_child_before_parent() {
    // The tape holds one translation instruction; the pool holds (3, 4).
    let mut anim = animation(
        vec![shape(10, 8, 8)],
        vec![sprite(
            1,
            SpritePayload::SingleNoAction(10),
            vec![2, 0], // tag: translation, offset 0
        )],
    );
    anim.transform = Some(rustfu::types::TransformTable {
        colors: vec![],
        rotations: vec![],
        translations: vec![3.0f32.to_bits(), 4.0f32.to_bits()],
        actions: vec![],
    });
    let root = anim.sprites.get(&1).unwrap().clone();
    let mut sink = Measure {
        entries: Vec::new(),
    };
    render_sprite(
        &mut sink,
        &anim,
        &root,
        &SpriteTransform::scale(2.0f32.to_bits(), 2.0f32.to_bits()),
        0,
        64,
    );
    assert_eq!(sink.entries.len(), 1);
    assert_eq!(
        sink.entries[0].transform.ops,
        vec![
            Operation::Translate(3.0f32.to_bits(), 4.0f32.to_bits()),
            Operation::Scale(2.0f32.to_bits(), 2.0f32.to_bits()),
        ]
    );
    // Child translation happens before the parent scale: (0,0) maps to (6,8).
    let (m, _) = eval_ops(&sink.entries[0].transform.ops);
    assert_eq!(point(m, 0.0, 0.0), (6.0, 8.0));
}

#[test]
fn unreadable_node_is_skipped_but_siblings_render() {
    // First child's tag is out of range; the second still renders.
    let anim = animation(
        vec![shape(10, 8, 8), shape(11, 4, 4)],
        vec![sprite(
            1,
            SpritePayload::SingleFrame(vec![10, 11], vec![]),
            vec![16, 0],
        )],
    );
    let root = anim.sprites.get(&1).unwrap().clone();
    let entries = render_at(&anim, &root, 0);
    assert_eq!(entries.len(), 1);
    assert_eq!(entries[0].shape.id, 11);
}

#[test]
fn out_of_range_pool_offset_skips_the_node() {
    // Translation instruction pointing past the (empty) pool: skipped, and
    // the sibling after it still reads its own instruction.
    let anim = animation(
        vec![shape(10, 8, 8), shape(11, 4, 4)],
        vec![sprite(
            1,
            SpritePayload::SingleFrame(vec![10, 11], vec![]),
            vec![2, 5, 0],
        )],
    );
    let root = anim.sprites.get(&1).unwrap().clone();
    let entries = render_at(&anim, &root, 0);
    assert_eq!(entries.len(), 1);
    assert_eq!(entries[0].shape.id, 11);
}

#[test]
fn missing_child_id_is_skipped_silently() {
    let anim = animation(
        vec![shape(10, 8, 8)],
        vec![sprite(
            1,
            SpritePayload::SingleFrame(vec![99, 10], vec![]),
            vec![0, 0],
        )],
    );
    let root = anim.sprites.get(&1).unwrap().clone();
    let entries = render_at(&anim, &root, 0);
    assert_eq!(entries.len(), 1);
    assert_eq!(entries[0].shape.id, 10);
}

#[test]
fn cyclic_sprite_graph_terminates() {
    // A sprite that renders itself: the recursion budget cuts the cycle.
    let anim = animation(
        vec![],
        vec![sprite(1, SpritePayload::SingleNoAction(1), vec![0])],
    );
    let root = anim.sprites.get(&1).unwrap().clone();
    let entries = render_at(&anim, &root, 0);
    assert_eq!(entries.len(), 0);
}

#[test]
fn empty_indexed_payload_renders_nothing() {
    let anim = animation(
        vec![shape(10, 8, 8)],
        vec![sprite(
            1,
            SpritePayload::Indexed(vec![], vec![], vec![]),
            vec![],
        )],
    );
    let root = anim.sprites.get(&1).unwrap().clone();
    assert_eq!(root.frame_count(), 0);
    assert_eq!(render_at(&anim, &root, 0).len(), 0);
}

#[test]
fn nested_sprites_compose_through_both_levels() {
    // Sprite 1 holds sprite 2, which holds shape 10; each level contributes
    // its own tape translation, child-first.
    let mut anim = animation(
        vec![shape(10, 8, 8)],
        vec![
            sprite(1, SpritePayload::SingleNoAction(2), vec![2, 0]),
            sprite(2, SpritePayload::SingleNoAction(10), vec![2, 2]),
        ],
    );
    anim.transform = Some(rustfu::types::TransformTable {
        colors: vec![],
        rotations: vec![],
        translations: vec![
            1.0f32.to_bits(),
            0.0f32.to_bits(),
            10.0f32.to_bits(),
            0.0f32.to_bits(),
        ],
        actions: vec![],
    });
    let root = anim.sprites.get(&1).unwrap().clone();
    let entries = render_at(&anim, &root, 0);
    assert_eq!(entries.len(), 1);
    assert_eq!(
        entries[0].transform.ops,
        vec![
            Operation::Translate(10.0f32.to_bits(), 0.0f32.to_bits()),
            Operation::Translate(1.0f32.to_bits(), 0.0f32.to_bits()),
        ]
    );
    let (m, _) = eval_ops(&entries[0].transform.ops);
    assert_eq!(point(m, 0.0, 0.0), (11.0, 0.0));
}
