//! The transform algebra and the sprite compositor.
//!
//! A composed transform is kept symbolic: an ordered sequence of primitive
//! [`Operation`]s whose scalar arguments are the stored single-precision bit
//! patterns. Earlier operations in the sequence are applied before later
//! ones, so combining a child transform with its parent appends the parent's
//! operations after the child's. Numeric evaluation of a sequence is the
//! embedding application's concern.

use vstd::prelude::*;

use crate::frame_reader::FrameReader;
use crate::frame_reader::fd_len;
use crate::frame_reader::sr_transformation;
use crate::types::Animation;
use crate::types::AnimationV;
use crate::types::FrameData;
use crate::types::FrameDataV;
use crate::types::Shape;
use crate::types::SpritePayload;
use crate::types::SpritePayloadV;
use crate::types::SpriteV;
use crate::types::Sprite;
use crate::types::TransformTable;
use crate::types::TransformTableV;
use crate::types::empty_table_view;
use crate::types::views_of;

verus! {

broadcast use vstd::std_specs::hash::group_hash_axioms;

/// A primitive transform step read from the frame tape (or supplied
/// externally). Every scalar is the bit pattern of a single-precision value.
#[derive(Debug, Clone, Copy, PartialEq, Eq, Structural)]
pub enum Operation {
    /// Translation by (x, y).
    Translate(u32, u32),
    /// A 2-by-2 linear block, its four entries in pool order.
    Rotate(u32, u32, u32, u32),
    /// Scaling by (x, y).
    Scale(u32, u32),
    /// Componentwise RGBA color multiplication.
    ColorMultiply(u32, u32, u32, u32),
    /// Componentwise RGBA color addition.
    ColorAdd(u32, u32, u32, u32),
}

impl View for Operation {
    type V = Operation;

    open spec fn view(&self) -> Operation {
        *self
    }
}

/// A composed node-local transform: the ordered operations to apply, first
/// element first.
#[derive(Debug, Clone, PartialEq)]
pub struct SpriteTransform {
    pub ops: Vec<Operation>,
}

impl View for SpriteTransform {
    type V = Seq<Operation>;

    open spec fn view(&self) -> Seq<Operation> {
        self.ops@
    }
}

impl SpriteTransform {
    /// The transform that changes nothing.
    pub fn identity() -> (r: SpriteTransform)
        ensures
            r@ == Seq::<Operation>::empty(),
    {
        SpriteTransform { ops: Vec::new() }
    }

    /// Apply `self` first, then `other`: the child-then-parent composition.
    pub fn combine(self, other: &SpriteTransform) -> (r: SpriteTransform)
        ensures
            r@ == self@ + other@,
    {
        let ghost s0 = self.ops@;
        let mut ops = self.ops;
        let mut i: usize = 0;
        proof {
            assert(ops@ =~= s0 + other.ops@.take(0));
        }
        while i < other.ops.len()
            invariant
                i <= other.ops.len(),
                ops@ == s0 + other.ops@.take(i as int),
            decreases other.ops.len() - i,
        {
            ops.push(other.ops[i]);
            proof {
                assert(ops@ =~= s0 + other.ops@.take(i + 1));
            }
            i = i + 1;
        }
        proof {
            assert(other.ops@.take(other.ops@.len() as int) =~= other.ops@);
        }
        SpriteTransform { ops }
    }

    /// A pure translation.
    pub fn translate(x: u32, y: u32) -> (r: SpriteTransform)
        ensures
            r@ == seq![Operation::Translate(x, y)],
    {
        let mut ops: Vec<Operation> = Vec::new();
        ops.push(Operation::Translate(x, y));
        proof {
            assert(ops@ =~= seq![Operation::Translate(x, y)]);
        }
        SpriteTransform { ops }
    }

    /// A pure 2-by-2 linear transform, its entries in pool order.
    pub fn rotate(rx0: u32, ry0: u32, rx1: u32, ry1: u32) -> (r: SpriteTransform)
        ensures
            r@ == seq![Operation::Rotate(rx0, ry0, rx1, ry1)],
    {
        let mut ops: Vec<Operation> = Vec::new();
        ops.push(Operation::Rotate(rx0, ry0, rx1, ry1));
        proof {
            assert(ops@ =~= seq![Operation::Rotate(rx0, ry0, rx1, ry1)]);
        }
        SpriteTransform { ops }
    }

    /// A pure scaling.
    pub fn scale(sx: u32, sy: u32) -> (r: SpriteTransform)
        ensures
            r@ == seq![Operation::Scale(sx, sy)],
    {
        let mut ops: Vec<Operation> = Vec::new();
        ops.push(Operation::Scale(sx, sy));
        proof {
            assert(ops@ =~= seq![Operation::Scale(sx, sy)]);
        }
        SpriteTransform { ops }
    }

    /// A pure componentwise color multiplication.
    pub fn color_multiply(red: u32, green: u32, blue: u32, alpha: u32) -> (r: SpriteTransform)
        ensures
            r@ == seq![Operation::ColorMultiply(red, green, blue, alpha)],
    {
        let mut ops: Vec<Operation> = Vec::new();
        ops.push(Operation::ColorMultiply(red, green, blue, alpha));
        proof {
            assert(ops@ =~= seq![Operation::ColorMultiply(red, green, blue, alpha)]);
        }
        SpriteTransform { ops }
    }

    /// A pure componentwise color addition.
    pub fn color_add(red: u32, green: u32, blue: u32, alpha: u32) -> (r: SpriteTransform)
        ensures
            r@ == seq![Operation::ColorAdd(red, green, blue, alpha)],
    {
        let mut ops: Vec<Operation> = Vec::new();
        ops.push(Operation::ColorAdd(red, green, blue, alpha));
        proof {
            assert(ops@ =~= seq![Operation::ColorAdd(red, green, blue, alpha)]);
        }
        SpriteTransform { ops }
    }
}

/// One terminal result of composition: a shape together with the transform
/// composed on the way down to it.
#[derive(Debug, Clone, PartialEq)]
pub struct RenderEntry {
    pub shape: Shape,
    pub transform: SpriteTransform,
}

/// Spec view of [`RenderEntry`].
pub struct EntryV {
    pub shape: Shape,
    pub ops: Seq<Operation>,
}

impl View for RenderEntry {
    type V = EntryV;

    open spec fn view(&self) -> EntryV {
        EntryV { shape: self.shape, ops: self.transform@ }
    }
}

/// The transform table composition reads pools from: the animation's own, or
/// an empty one when the record has none.
pub open spec fn table_view_of(a: AnimationV) -> TransformTableV {
    match a.transform {
        Some(t) => t,
        None => empty_table_view(),
    }
}

/// The ordered terminal entries that composing one sprite at one frame
/// yields, under a parent transform, with a recursion budget of `depth`.
pub open spec fn spec_render_sprite(
    a: AnimationV,
    s: SpriteV,
    parent: Seq<Operation>,
    frame: u32,
    depth: nat,
) -> Seq<EntryV>
    decreases depth, 3int, 0int,
{
    let table = table_view_of(a);
    let d = s.frame_data;
    match s.payload {
        SpritePayloadV::Single(id, _) => spec_render_children(
            a,
            seq![id],
            d,
            table,
            0,
            parent,
            frame,
            depth,
        ).0,
        SpritePayloadV::SingleNoAction(id) => spec_render_children(
            a,
            seq![id],
            d,
            table,
            0,
            parent,
            frame,
            depth,
        ).0,
        SpritePayloadV::SingleFrame(ids, _) => spec_render_children(
            a,
            ids,
            d,
            table,
            0,
            parent,
            frame,
            depth,
        ).0,
        SpritePayloadV::Indexed(frame_pos, sprite_info, action_info) => {
            let stride: int = if action_info.len() == 0 {
                2
            } else {
                3
            };
            let fc = frame_pos.len() as int / stride;
            if fc == 0 {
                Seq::empty()
            } else {
                let index = (frame as int % fc) * stride;
                let offset = frame_pos[index];
                let current = frame_pos[index + 1];
                if current < 0 || current >= sprite_info.len() {
                    Seq::empty()
                } else {
                    let count = sprite_info[current as int] as int;
                    let avail = sprite_info.len() - (current + 1);
                    let n: int = if count < 0 {
                        avail
                    } else if count <= avail {
                        count
                    } else {
                        avail
                    };
                    let ids = sprite_info.subrange(current + 1, current + 1 + n);
                    let start: int = if offset < 0 {
                        fd_len(d) as int
                    } else {
                        offset as int
                    };
                    spec_render_children(a, ids, d, table, start, parent, frame, depth).0
                }
            }
        },
    }
}

/// The entries the given children contribute, reading one transformation per
/// child from the tape at `pos`, and the tape position after them. A child
/// whose transformation cannot be read is skipped; its siblings still read.
pub open spec fn spec_render_children(
    a: AnimationV,
    ids: Seq<i16>,
    d: FrameDataV,
    t: TransformTableV,
    pos: int,
    parent: Seq<Operation>,
    frame: u32,
    depth: nat,
) -> (Seq<EntryV>, int)
    decreases depth, 2int, ids.len(),
{
    if ids.len() == 0 {
        (Seq::empty(), pos)
    } else {
        let (tops, p1) = sr_transformation(d, t, pos);
        let head: Seq<EntryV> = match tops {
            None => Seq::empty(),
            Some(ops) => spec_render_by_id(a, ids[0], ops + parent, frame, depth),
        };
        let (rest, pf) = spec_render_children(
            a,
            ids.subrange(1, ids.len() as int),
            d,
            t,
            p1,
            parent,
            frame,
            depth,
        );
        (head + rest, pf)
    }
}

/// The entries one child id contributes: a sprite id recurses with the
/// budget reduced, a shape id emits one entry, an unknown id emits nothing.
pub open spec fn spec_render_by_id(
    a: AnimationV,
    id: i16,
    ops: Seq<Operation>,
    frame: u32,
    depth: nat,
) -> Seq<EntryV>
    decreases depth, 1int, 0int,
{
    if a.sprites.contains_key(id) {
        if depth == 0 {
            Seq::empty()
        } else {
            spec_render_sprite(a, a.sprites[id], ops, frame, (depth - 1) as nat)
        }
    } else if a.shapes.contains_key(id) {
        seq![EntryV { shape: a.shapes[id], ops }]
    } else {
        Seq::empty()
    }
}

/// A rendering sink: whatever consumes (shape, transform) pairs, in order.
/// `entries` is the abstract log of what the sink has been fed; `inv` is the
/// sink's own invariant.
pub trait Render {
    spec fn inv(&self) -> bool;

    spec fn entries(&self) -> Seq<EntryV>;

    /// Consume one terminal shape with its composed transform.
    fn render(&mut self, shape: &Shape, transform: SpriteTransform)
        requires
            old(self).inv(),
        ensures
            final(self).inv(),
            final(self).entries() == old(self).entries().push(
                EntryV { shape: *shape, ops: transform@ },
            ),
    ;
}

/// Render the children `ids[start .. start + count]`, each combining its own
/// tape transformation with `parent` before resolving.
#[verifier::loop_isolation(false)]
fn render_children<R: Render>(
    sink: &mut R,
    animation: &Animation,
    reader: &mut FrameReader,
    ids: &Vec<i16>,
    start: usize,
    count: usize,
    parent: &SpriteTransform,
    frame: u32,
    depth: u32,
)
    requires
        old(sink).inv(),
        start + count <= ids@.len(),
    ensures
        final(sink).inv(),
        final(reader).data == old(reader).data,
        final(reader).transform == old(reader).transform,
        ({
            let sub = ids@.subrange(start as int, (start + count) as int);
            let sres = spec_render_children(
                animation@,
                sub,
                old(reader).data@,
                old(reader).transform@,
                old(reader).position as int,
                parent@,
                frame,
                depth as nat,
            );
            final(sink).entries() == old(sink).entries() + sres.0 && final(reader).position
                == sres.1
        }),
    decreases depth, 2int,
{
    let ghost a = animation@;
    let ghost sub = ids@.subrange(start as int, (start + count) as int);
    let ghost d = reader.data@;
    let ghost t = reader.transform@;
    let ghost pos0 = reader.position as int;
    let ghost entries0 = sink.entries();
    let ghost mut done: Seq<EntryV> = Seq::empty();
    let ids_len = ids.len();
    let mut j: usize = 0;
    proof {
        assert(entries0 + done =~= entries0);
        assert(sub.subrange(0, sub.len() as int) =~= sub);
    }
    while j < count
        invariant
            j <= count,
            sink.inv(),
            reader.data == old(reader).data,
            reader.transform == old(reader).transform,
            sink.entries() == entries0 + done,
            spec_render_children(a, sub, d, t, pos0, parent@, frame, depth as nat).0 == done
                + spec_render_children(
                a,
                sub.subrange(j as int, sub.len() as int),
                d,
                t,
                reader.position as int,
                parent@,
                frame,
                depth as nat,
            ).0,
            spec_render_children(a, sub, d, t, pos0, parent@, frame, depth as nat).1
                == spec_render_children(
                a,
                sub.subrange(j as int, sub.len() as int),
                d,
                t,
                reader.position as int,
                parent@,
                frame,
                depth as nat,
            ).1,
        decreases count - j,
    {
        proof {
            assert(sub.subrange(j as int, sub.len() as int).len() > 0);
            assert(sub.subrange(j as int, sub.len() as int)[0] == sub[j as int]);
            assert(sub[j as int] == ids@[(start + j) as int]);
            assert(sub.subrange(j as int, sub.len() as int).subrange(
                1,
                sub.len() as int - j,
            ) =~= sub.subrange(j as int + 1, sub.len() as int));
        }
        let t_read = reader.read_transformation();
        match t_read {
            None => {
                proof {
                    assert(done + Seq::<EntryV>::empty() =~= done);
                    assert(Seq::<EntryV>::empty() + spec_render_children(
                        a,
                        sub.subrange(j as int + 1, sub.len() as int),
                        d,
                        t,
                        reader.position as int,
                        parent@,
                        frame,
                        depth as nat,
                    ).0 =~= spec_render_children(
                        a,
                        sub.subrange(j as int + 1, sub.len() as int),
                        d,
                        t,
                        reader.position as int,
                        parent@,
                        frame,
                        depth as nat,
                    ).0);
                }
            },
            Some(st) => {
                let combined = st.combine(parent);
                let ghost done_before = done;
                let ghost head = spec_render_by_id(
                    a,
                    sub[j as int],
                    combined@,
                    frame,
                    depth as nat,
                );
                proof {
                    assert(start + j < ids_len);
                }
                let child_id = ids[start + j];
                render_by_id(sink, animation, child_id, combined, frame, depth);
                proof {
                    done = done + head;
                    assert(sink.entries() =~= entries0 + done);
                    assert forall|rest: Seq<EntryV>| (done_before + head) + rest =~= done_before
                        + (head + rest) by {}
                }
            },
        }
        j = j + 1;
    }
    proof {
        assert(sub.subrange(count as int, sub.len() as int).len() == 0);
        assert(done + Seq::<EntryV>::empty() =~= done);
    }
}

/// Resolve one child id under an already-combined transform: a sprite
/// recurses while the budget lasts, a shape is emitted, an unknown id is
/// skipped silently.
pub fn render_by_id<R: Render>(
    sink: &mut R,
    animation: &Animation,
    id: i16,
    transform: SpriteTransform,
    frame: u32,
    depth: u32,
)
    requires
        old(sink).inv(),
    ensures
        final(sink).inv(),
        final(sink).entries() == old(sink).entries() + spec_render_by_id(
            animation@,
            id,
            transform@,
            frame,
            depth as nat,
        ),
    decreases depth, 1int,
{
    let ghost a = animation@;
    match animation.sprites.get(&id) {
        Some(sprite) => {
            proof {
                assert(animation.sprites@.contains_key(id));
                assert(a.sprites.contains_key(id));
                assert(a.sprites[id] == animation.sprites@[id]@);
                assert(a.sprites[id] == sprite@);
            }
            if depth == 0 {
                proof {
                    assert(old(sink).entries() + Seq::<EntryV>::empty() =~= old(sink).entries());
                }
            } else {
                render_sprite(sink, animation, sprite, &transform, frame, depth - 1);
            }
        },
        None => {
            proof {
                assert(!a.sprites.contains_key(id));
            }
            match animation.shapes.get(&id) {
                Some(shape) => {
                    proof {
                        assert(a.shapes.contains_key(id));
                        assert(a.shapes[id] == *shape);
                    }
                    let ghost e = EntryV { shape: *shape, ops: transform@ };
                    sink.render(shape, transform);
                    proof {
                        assert(old(sink).entries().push(e) =~= old(sink).entries() + seq![e]);
                    }
                },
                None => {
                    proof {
                        assert(!a.shapes.contains_key(id));
                        assert(old(sink).entries() + Seq::<EntryV>::empty() =~= old(
                            sink,
                        ).entries());
                    }
                },
            }
        },
    }
}

/// Compose one sprite at one frame under `transform`, feeding each resolved
/// terminal shape to the sink in order. `depth` caps the recursion into
/// nested sprites, so a cyclic or malformed graph terminates instead of
/// recursing forever.
pub fn render_sprite<R: Render>(
    sink: &mut R,
    animation: &Animation,
    sprite: &Sprite,
    transform: &SpriteTransform,
    frame: u32,
    depth: u32,
)
    requires
        old(sink).inv(),
    ensures
        final(sink).inv(),
        final(sink).entries() == old(sink).entries() + spec_render_sprite(
            animation@,
            sprite@,
            transform@,
            frame,
            depth as nat,
        ),
    decreases depth, 3int,
{
    let ghost a = animation@;
    let empty_table = TransformTable::empty();
    let table: &TransformTable = match &animation.transform {
        Some(t) => t,
        None => &empty_table,
    };
    proof {
        assert(table@ == table_view_of(a));
    }
    let mut reader = FrameReader::new(&sprite.frame_data, table);
    match &sprite.payload {
        SpritePayload::Single(sprite_id, _) => {
            let ids = vec![*sprite_id];
            proof {
                assert(ids@.subrange(0, 1) =~= seq![*sprite_id]);
            }
            render_children(sink, animation, &mut reader, &ids, 0, 1, transform, frame, depth);
        },
        SpritePayload::SingleNoAction(sprite_id) => {
            let ids = vec![*sprite_id];
            proof {
                assert(ids@.subrange(0, 1) =~= seq![*sprite_id]);
            }
            render_children(sink, animation, &mut reader, &ids, 0, 1, transform, frame, depth);
        },
        SpritePayload::SingleFrame(sprite_ids, _) => {
            proof {
                assert(sprite_ids@.subrange(0, sprite_ids@.len() as int) =~= sprite_ids@);
            }
            render_children(
                sink,
                animation,
                &mut reader,
                sprite_ids,
                0,
                sprite_ids.len(),
                transform,
                frame,
                depth,
            );
        },
        SpritePayload::Indexed(frame_pos, sprite_info, action_info) => {
            let stride: usize = if action_info.len() == 0 {
                2
            } else {
                3
            };
            let fc = frame_pos.len() / stride;
            if fc == 0 {
                proof {
                    assert(old(sink).entries() + Seq::<EntryV>::empty() =~= old(sink).entries());
                }
            } else {
                proof {
                    vstd::arithmetic::div_mod::lemma_fundamental_div_mod(
                        frame_pos@.len() as int,
                        stride as int,
                    );
                    assert((frame as int % fc as int) == (frame as usize % fc) as int);
                    assert((frame as usize % fc) * stride + stride <= frame_pos@.len()) by (nonlinear_arith)
                        requires
                            (frame as usize % fc) < fc,
                            stride * fc <= frame_pos@.len(),
                            stride >= 2,
                    ;
                }
                let fidx = (frame as usize) % fc;
                let index = fidx * stride;
                let offset = frame_pos[index];
                let current = frame_pos[index + 1];
                if 0 <= current && (current as usize) < sprite_info.len() {
                    let cur = current as usize;
                    let count_raw = sprite_info[cur];
                    let avail = sprite_info.len() - (cur + 1);
                    let n: usize = if count_raw < 0 {
                        avail
                    } else if (count_raw as usize) <= avail {
                        count_raw as usize
                    } else {
                        avail
                    };
                    if offset < 0 {
                        let end = sprite.frame_data.tape_len();
                        reader.seek(end);
                    } else {
                        reader.seek(offset as usize);
                    }
                    render_children(
                        sink,
                        animation,
                        &mut reader,
                        sprite_info,
                        cur + 1,
                        n,
                        transform,
                        frame,
                        depth,
                    );
                } else {
                    proof {
                        assert(old(sink).entries() + Seq::<EntryV>::empty() =~= old(
                            sink,
                        ).entries());
                    }
                }
            }
        },
    }
}

/// A sink that records every entry it is fed, in order. Running it over a
/// sprite collects exactly the entries that drawing through any sink visits,
/// which is what measurement mode folds into a bounding box.
pub struct Measure {
    pub entries: Vec<RenderEntry>,
}

impl Render for Measure {
    open spec fn inv(&self) -> bool {
        true
    }

    open spec fn entries(&self) -> Seq<EntryV> {
        views_of(self.entries@)
    }

    fn render(&mut self, shape: &Shape, transform: SpriteTransform) {
        let ghost before = views_of(self.entries@);
        let ghost e = EntryV { shape: *shape, ops: transform@ };
        self.entries.push(RenderEntry { shape: *shape, transform });
        proof {
            assert(views_of(self.entries@) =~= before.push(e));
        }
    }
}

impl Measure {
    /// An empty recorder.
    pub fn new() -> (r: Measure)
        ensures
            r.entries@.len() == 0,
    {
        let r = Measure { entries: Vec::new() };
        r
    }

    /// Collect the terminal entries of `sprite` at frame 0 under a uniform
    /// scale, exactly as rendering them would; the caller folds the entries
    /// into a bounding box. `scale_bits` is the bit pattern of the scale
    /// factor; `depth` is the recursion budget.
    pub fn run(animation: &Animation, sprite: &Sprite, scale_bits: u32, depth: u32) -> (r: Vec<
        RenderEntry,
    >)
        ensures
            views_of(r@) == spec_render_sprite(
                animation@,
                sprite@,
                seq![Operation::Scale(scale_bits, scale_bits)],
                0,
                depth as nat,
            ),
    {
        let mut measure = Measure::new();
        let scaled = SpriteTransform::scale(scale_bits, scale_bits);
        proof {
            assert(views_of(measure.entries@) =~= Seq::<EntryV>::empty());
        }
        render_sprite(&mut measure, animation, sprite, &scaled, 0, depth);
        proof {
            assert(Seq::<EntryV>::empty() + spec_render_sprite(
                animation@,
                sprite@,
                seq![Operation::Scale(scale_bits, scale_bits)],
                0,
                depth as nat,
            ) =~= spec_render_sprite(
                animation@,
                sprite@,
                seq![Operation::Scale(scale_bits, scale_bits)],
                0,
                depth as nat,
            ));
        }
        measure.entries
    }
}

} // verus!
