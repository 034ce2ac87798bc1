//! Laws of the compositor, stated and proved over the same spec functions
//! that the executable functions' contracts use.

use vstd::prelude::*;

use crate::render::EntryV;
use crate::render::Operation;
use crate::render::spec_render_by_id;
use crate::render::spec_render_children;
use crate::render::spec_render_sprite;
use crate::types::AnimationV;
use crate::types::FrameDataV;
use crate::types::SpritePayloadV;
use crate::types::SpriteV;
use crate::types::TransformTableV;

verus! {

/// Composition is a function of its inputs alone: two runs over the same
/// animation, sprite, frame, external transform and budget are fed exactly
/// the same entry sequences, whatever sinks consume them.
pub proof fn lemma_render_deterministic(
    a: AnimationV,
    s: SpriteV,
    t: Seq<Operation>,
    frame: u32,
    depth: nat,
    fed1: Seq<EntryV>,
    fed2: Seq<EntryV>,
)
    requires
        fed1 == spec_render_sprite(a, s, t, frame, depth),
        fed2 == spec_render_sprite(a, s, t, frame, depth),
    ensures
        fed1 == fed2,
{
}

/// Measuring visits exactly what drawing draws: a measuring run that
/// collected `measured` and a drawing run that extended any sink's log by
/// the composed entries, over the same inputs, saw the same sequence.
pub proof fn lemma_measure_matches_render(
    a: AnimationV,
    s: SpriteV,
    t: Seq<Operation>,
    frame: u32,
    depth: nat,
    measured: Seq<EntryV>,
    drawn_before: Seq<EntryV>,
    drawn_after: Seq<EntryV>,
)
    requires
        measured == spec_render_sprite(a, s, t, frame, depth),
        drawn_after == drawn_before + spec_render_sprite(a, s, t, frame, depth),
    ensures
        drawn_after == drawn_before + measured,
        drawn_after.subrange(drawn_before.len() as int, drawn_after.len() as int) == measured,
{
    assert(drawn_after.subrange(drawn_before.len() as int, drawn_after.len() as int)
        =~= measured);
}

/// Transform combination is associative: combining a child into a parent and
/// then into a grandparent composes the same operation sequence either way.
pub proof fn lemma_combine_associative(a: Seq<Operation>, b: Seq<Operation>, c: Seq<Operation>)
    ensures
        (a + b) + c == a + (b + c),
{
    assert((a + b) + c =~= a + (b + c));
}

/// The identity transform is a unit of combination on both sides.
pub proof fn lemma_combine_identity(a: Seq<Operation>)
    ensures
        a + Seq::<Operation>::empty() == a,
        Seq::<Operation>::empty() + a == a,
{
    assert(a + Seq::<Operation>::empty() =~= a);
    assert(Seq::<Operation>::empty() + a =~= a);
}

/// Combining two different operations in the two orders yields two different
/// composed transforms: composition order is observable.
pub proof fn lemma_combine_order_matters(x: Operation, y: Operation)
    requires
        x != y,
    ensures
        seq![x] + seq![y] != seq![y] + seq![x],
{
    assert((seq![x] + seq![y])[0] == x);
    assert((seq![y] + seq![x])[0] == y);
}

/// Two frame numbers select the same tape region of a payload: for an
/// `Indexed` payload they agree modulo its frame count, and any other
/// payload shows every frame alike.
pub open spec fn frames_agree(p: SpritePayloadV, f1: u32, f2: u32) -> bool {
    match p {
        SpritePayloadV::Indexed(frame_pos, _, action_info) => {
            let stride: int = if action_info.len() == 0 {
                2
            } else {
                3
            };
            let fc = frame_pos.len() as int / stride;
            fc == 0 || f1 as int % fc == f2 as int % fc
        },
        _ => true,
    }
}

/// Frame numbers only enter composition through each sprite's own
/// `frame mod frame_count`: when two frames agree that way for the root and
/// for every sprite of the animation, composition yields identical output.
pub proof fn lemma_render_sprite_frame_cycle(
    a: AnimationV,
    s: SpriteV,
    parent: Seq<Operation>,
    f1: u32,
    f2: u32,
    depth: nat,
)
    requires
        frames_agree(s.payload, f1, f2),
        forall|id: i16|
            a.sprites.contains_key(id) ==> frames_agree(#[trigger] a.sprites[id].payload, f1, f2),
    ensures
        spec_render_sprite(a, s, parent, f1, depth) == spec_render_sprite(a, s, parent, f2, depth),
    decreases depth, 3int, 0int,
{
    let table = crate::render::table_view_of(a);
    let d = s.frame_data;
    match s.payload {
        SpritePayloadV::Single(id, _) => {
            lemma_render_children_frame_cycle(a, seq![id], d, table, 0, parent, f1, f2, depth);
        },
        SpritePayloadV::SingleNoAction(id) => {
            lemma_render_children_frame_cycle(a, seq![id], d, table, 0, parent, f1, f2, depth);
        },
        SpritePayloadV::SingleFrame(ids, _) => {
            lemma_render_children_frame_cycle(a, ids, d, table, 0, parent, f1, f2, depth);
        },
        SpritePayloadV::Indexed(frame_pos, sprite_info, action_info) => {
            let stride: int = if action_info.len() == 0 {
                2
            } else {
                3
            };
            let fc = frame_pos.len() as int / stride;
            if fc != 0 {
                assert(f1 as int % fc == f2 as int % fc);
                let index = (f1 as int % fc) * stride;
                let current = frame_pos[index + 1];
                if !(current < 0 || current >= sprite_info.len()) {
                    let count = sprite_info[current as int] as int;
                    let avail = sprite_info.len() - (current + 1);
                    let n: int = if count < 0 {
                        avail
                    } else if count <= avail {
                        count
                    } else {
                        avail
                    };
                    let ids = sprite_info.subrange(current + 1, current + 1 + n);
                    let offset = frame_pos[index];
                    let start: int = if offset < 0 {
                        crate::frame_reader::fd_len(d) as int
                    } else {
                        offset as int
                    };
                    lemma_render_children_frame_cycle(
                        a,
                        ids,
                        d,
                        table,
                        start,
                        parent,
                        f1,
                        f2,
                        depth,
                    );
                }
            }
        },
    }
}

/// Companion of [`lemma_render_sprite_frame_cycle`] for a child list.
pub proof fn lemma_render_children_frame_cycle(
    a: AnimationV,
    ids: Seq<i16>,
    d: FrameDataV,
    t: TransformTableV,
    pos: int,
    parent: Seq<Operation>,
    f1: u32,
    f2: u32,
    depth: nat,
)
    requires
        forall|id: i16|
            a.sprites.contains_key(id) ==> frames_agree(#[trigger] a.sprites[id].payload, f1, f2),
    ensures
        spec_render_children(a, ids, d, t, pos, parent, f1, depth) == spec_render_children(
            a,
            ids,
            d,
            t,
            pos,
            parent,
            f2,
            depth,
        ),
    decreases depth, 2int, ids.len(),
{
    if ids.len() != 0 {
        let (tops, p1) = crate::frame_reader::sr_transformation(d, t, pos);
        match tops {
            None => {},
            Some(ops) => {
                lemma_render_by_id_frame_cycle(a, ids[0], ops + parent, f1, f2, depth);
            },
        }
        lemma_render_children_frame_cycle(
            a,
            ids.subrange(1, ids.len() as int),
            d,
            t,
            p1,
            parent,
            f1,
            f2,
            depth,
        );
    }
}

/// Companion of [`lemma_render_sprite_frame_cycle`] for one child id.
pub proof fn lemma_render_by_id_frame_cycle(
    a: AnimationV,
    id: i16,
    ops: Seq<Operation>,
    f1: u32,
    f2: u32,
    depth: nat,
)
    requires
        forall|id2: i16|
            a.sprites.contains_key(id2) ==> frames_agree(
                #[trigger] a.sprites[id2].payload,
                f1,
                f2,
            ),
    ensures
        spec_render_by_id(a, id, ops, f1, depth) == spec_render_by_id(a, id, ops, f2, depth),
    decreases depth, 1int, 0int,
{
    if a.sprites.contains_key(id) && depth > 0 {
        assert(frames_agree(a.sprites[id].payload, f1, f2));
        lemma_render_sprite_frame_cycle(a, a.sprites[id], ops, f1, f2, (depth - 1) as nat);
    }
}

/// A payload repeats with period `n`: for an `Indexed` payload, its frame
/// count divides `n`; every other payload repeats with any period.
pub open spec fn period_divides(p: SpritePayloadV, n: u32) -> bool {
    match p {
        SpritePayloadV::Indexed(frame_pos, _, action_info) => {
            let stride: int = if action_info.len() == 0 {
                2
            } else {
                3
            };
            let fc = frame_pos.len() as int / stride;
            fc == 0 || n as int % fc == 0
        },
        _ => true,
    }
}

/// Indexed cycling: when `n` is a period of the root sprite and of every
/// sprite of the animation, the compositor's output at `frame` and at
/// `frame + n` is identical.
pub proof fn lemma_render_cycles_with_period(
    a: AnimationV,
    s: SpriteV,
    parent: Seq<Operation>,
    frame: u32,
    n: u32,
    depth: nat,
)
    requires
        frame + n <= u32::MAX,
        period_divides(s.payload, n),
        forall|id: i16|
            a.sprites.contains_key(id) ==> period_divides(#[trigger] a.sprites[id].payload, n),
    ensures
        spec_render_sprite(a, s, parent, frame, depth) == spec_render_sprite(
            a,
            s,
            parent,
            (frame + n) as u32,
            depth,
        ),
{
    let f2: u32 = (frame + n) as u32;
    assert forall|p: SpritePayloadV| period_divides(p, n) implies frames_agree(
        p,
        frame,
        f2,
    ) by {
        match p {
            SpritePayloadV::Indexed(frame_pos, _, action_info) => {
                let stride: int = if action_info.len() == 0 {
                    2
                } else {
                    3
                };
                let fc = frame_pos.len() as int / stride;
                if fc != 0 {
                    let k = n as int / fc;
                    vstd::arithmetic::div_mod::lemma_fundamental_div_mod(n as int, fc);
                    assert(n as int == fc * k);
                    vstd::arithmetic::div_mod::lemma_mod_multiples_vanish(
                        k,
                        frame as int,
                        fc,
                    );
                    assert((fc * k + frame as int) % fc == frame as int % fc);
                    assert(f2 as int == fc * k + frame as int);
                }
            },
            _ => {},
        }
    }
    lemma_render_sprite_frame_cycle(a, s, parent, frame, f2, depth);
}

} // verus!
