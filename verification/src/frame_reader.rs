//! The frame tape reader: turns tape instructions and the shared transform
//! table into transform operations.
//!
//! A tape element is widened to `u32` whatever its stored width. One
//! transformation is a tag (a bitwise OR of multiply = 4, add = 8,
//! rotation = 1, translation = 2) followed by one pool offset per set bit,
//! read and applied in the fixed order color-multiply, color-add, rotation,
//! translation. A tag above 15 or an out-of-range offset yields "absent":
//! the caller skips that node, and the cursor stays where the failed read
//! left it so later siblings still read their own instructions.

use vstd::prelude::*;

use crate::render::Operation;
use crate::render::SpriteTransform;
use crate::types::FrameData;
use crate::types::FrameDataV;
use crate::types::TransformTable;
use crate::types::TransformTableV;

verus! {

/// Number of elements on a tape.
pub open spec fn fd_len(d: FrameDataV) -> nat {
    match d {
        FrameDataV::Bytes(v) => v.len(),
        FrameDataV::Shorts(v) => v.len(),
        FrameDataV::Ints(v) => v.len(),
    }
}

/// The tape element at `i`, widened to `u32`.
pub open spec fn fd_elem(d: FrameDataV, i: int) -> u32 {
    match d {
        FrameDataV::Bytes(v) => v[i] as u32,
        FrameDataV::Shorts(v) => v[i] as u32,
        FrameDataV::Ints(v) => v[i],
    }
}

/// One tape element at `pos`, and the position after it; `None` past the
/// end, with the position unchanged.
pub open spec fn sr_int(d: FrameDataV, pos: int) -> Option<(u32, int)> {
    if 0 <= pos < fd_len(d) {
        Some((fd_elem(d, pos), pos + 1))
    } else {
        None
    }
}

/// A translation: one offset into the translation pool, two scalars there.
pub open spec fn sr_translation(d: FrameDataV, t: TransformTableV, pos: int) -> (Option<
    Operation,
>, int) {
    match sr_int(d, pos) {
        None => (None, pos),
        Some((off, p1)) => {
            if off + 2 <= t.translations.len() {
                (
                    Some(
                        Operation::Translate(
                            t.translations[off as int],
                            t.translations[off as int + 1],
                        ),
                    ),
                    p1,
                )
            } else {
                (None, p1)
            }
        },
    }
}

/// A rotation: one offset into the rotation pool, four scalars there.
pub open spec fn sr_rotation(d: FrameDataV, t: TransformTableV, pos: int) -> (Option<
    Operation,
>, int) {
    match sr_int(d, pos) {
        None => (None, pos),
        Some((off, p1)) => {
            if off + 4 <= t.rotations.len() {
                (
                    Some(
                        Operation::Rotate(
                            t.rotations[off as int],
                            t.rotations[off as int + 1],
                            t.rotations[off as int + 2],
                            t.rotations[off as int + 3],
                        ),
                    ),
                    p1,
                )
            } else {
                (None, p1)
            }
        },
    }
}

/// A color multiplication: one offset into the color pool, four scalars.
pub open spec fn sr_color_multiply(d: FrameDataV, t: TransformTableV, pos: int) -> (Option<
    Operation,
>, int) {
    match sr_int(d, pos) {
        None => (None, pos),
        Some((off, p1)) => {
            if off + 4 <= t.colors.len() {
                (
                    Some(
                        Operation::ColorMultiply(
                            t.colors[off as int],
                            t.colors[off as int + 1],
                            t.colors[off as int + 2],
                            t.colors[off as int + 3],
                        ),
                    ),
                    p1,
                )
            } else {
                (None, p1)
            }
        },
    }
}

/// A color addition: one offset into the color pool, four scalars.
pub open spec fn sr_color_add(d: FrameDataV, t: TransformTableV, pos: int) -> (Option<
    Operation,
>, int) {
    match sr_int(d, pos) {
        None => (None, pos),
        Some((off, p1)) => {
            if off + 4 <= t.colors.len() {
                (
                    Some(
                        Operation::ColorAdd(
                            t.colors[off as int],
                            t.colors[off as int + 1],
                            t.colors[off as int + 2],
                            t.colors[off as int + 3],
                        ),
                    ),
                    p1,
                )
            } else {
                (None, p1)
            }
        },
    }
}

/// One whole transformation at `pos`: the tag element, then its 0 to 4
/// sub-transforms in the fixed order. `None` with the position after
/// whatever was consumed when the tag is above 15 or any read fails.
pub open spec fn sr_transformation(d: FrameDataV, t: TransformTableV, pos: int) -> (Option<
    Seq<Operation>,
>, int) {
    match sr_int(d, pos) {
        None => (None, pos),
        Some((tag, ptag)) => {
            if tag > 15 {
                (None, ptag)
            } else {
                let s0 = Seq::<Operation>::empty();
                let (r1, p1) = if tag & 4 == 4 {
                    match sr_color_multiply(d, t, ptag) {
                        (Some(op), q) => (Some(s0.push(op)), q),
                        (None, q) => (None, q),
                    }
                } else {
                    (Some(s0), ptag)
                };
                match r1 {
                    None => (None, p1),
                    Some(s1) => {
                        let (r2, p2) = if tag & 8 == 8 {
                            match sr_color_add(d, t, p1) {
                                (Some(op), q) => (Some(s1.push(op)), q),
                                (None, q) => (None, q),
                            }
                        } else {
                            (Some(s1), p1)
                        };
                        match r2 {
                            None => (None, p2),
                            Some(s2) => {
                                let (r3, p3) = if tag & 1 == 1 {
                                    match sr_rotation(d, t, p2) {
                                        (Some(op), q) => (Some(s2.push(op)), q),
                                        (None, q) => (None, q),
                                    }
                                } else {
                                    (Some(s2), p2)
                                };
                                match r3 {
                                    None => (None, p3),
                                    Some(s3) => {
                                        let (r4, p4) = if tag & 2 == 2 {
                                            match sr_translation(d, t, p3) {
                                                (Some(op), q) => (Some(s3.push(op)), q),
                                                (None, q) => (None, q),
                                            }
                                        } else {
                                            (Some(s3), p3)
                                        };
                                        match r4 {
                                            None => (None, p4),
                                            Some(s4) => (Some(s4), p4),
                                        }
                                    },
                                }
                            },
                        }
                    },
                }
            }
        },
    }
}

impl FrameData {
    /// Number of elements on this tape.
    pub fn tape_len(&self) -> (r: usize)
        ensures
            r == fd_len(self@),
    {
        match self {
            FrameData::Bytes(v) => v.len(),
            FrameData::Shorts(v) => v.len(),
            FrameData::Ints(v) => v.len(),
        }
    }
}

/// A cursor over one sprite's frame tape, resolving pool offsets through the
/// shared transform table.
pub struct FrameReader<'a> {
    pub data: &'a FrameData,
    pub transform: &'a TransformTable,
    pub position: usize,
}

impl<'a> FrameReader<'a> {
    pub fn new(data: &'a FrameData, transform: &'a TransformTable) -> (r: FrameReader<'a>)
        ensures
            r.data == data,
            r.transform == transform,
            r.position == 0,
    {
        FrameReader { data, transform, position: 0 }
    }

    /// Move the cursor to `position`; any value is allowed, and reads past
    /// the tape end fail without advancing.
    pub fn seek(&mut self, position: usize)
        ensures
            final(self).data == old(self).data,
            final(self).transform == old(self).transform,
            final(self).position == position,
    {
        self.position = position;
    }

    fn read_int(&mut self) -> (r: Option<u32>)
        ensures
            final(self).data == old(self).data,
            final(self).transform == old(self).transform,
            match sr_int(old(self).data@, old(self).position as int) {
                Some((v, p)) => r == Some(v) && final(self).position == p,
                None => r == None::<u32> && final(self).position == old(self).position,
            },
    {
        let val: u32;
        match self.data {
            FrameData::Bytes(v) => {
                if self.position < v.len() {
                    val = v[self.position] as u32;
                } else {
                    return None;
                }
            },
            FrameData::Shorts(v) => {
                if self.position < v.len() {
                    val = v[self.position] as u32;
                } else {
                    return None;
                }
            },
            FrameData::Ints(v) => {
                if self.position < v.len() {
                    val = v[self.position];
                } else {
                    return None;
                }
            },
        }
        self.position = self.position + 1;
        Some(val)
    }

    fn read_translation(&mut self) -> (r: Option<Operation>)
        ensures
            final(self).data == old(self).data,
            final(self).transform == old(self).transform,
            ({
                let (op, p) = sr_translation(
                    old(self).data@,
                    old(self).transform@,
                    old(self).position as int,
                );
                r == op && final(self).position == p
            }),
    {
        let off = match self.read_int() {
            Some(v) => v,
            None => {
                return None;
            },
        };
        let o = off as usize;
        let pool = &self.transform.translations;
        if pool.len() >= 2 && o <= pool.len() - 2 {
            Some(Operation::Translate(pool[o], pool[o + 1]))
        } else {
            None
        }
    }

    fn read_rotation(&mut self) -> (r: Option<Operation>)
        ensures
            final(self).data == old(self).data,
            final(self).transform == old(self).transform,
            ({
                let (op, p) = sr_rotation(
                    old(self).data@,
                    old(self).transform@,
                    old(self).position as int,
                );
                r == op && final(self).position == p
            }),
    {
        let off = match self.read_int() {
            Some(v) => v,
            None => {
                return None;
            },
        };
        let o = off as usize;
        let pool = &self.transform.rotations;
        if pool.len() >= 4 && o <= pool.len() - 4 {
            Some(Operation::Rotate(pool[o], pool[o + 1], pool[o + 2], pool[o + 3]))
        } else {
            None
        }
    }

    fn read_color_multiply(&mut self) -> (r: Option<Operation>)
        ensures
            final(self).data == old(self).data,
            final(self).transform == old(self).transform,
            ({
                let (op, p) = sr_color_multiply(
                    old(self).data@,
                    old(self).transform@,
                    old(self).position as int,
                );
                r == op && final(self).position == p
            }),
    {
        let off = match self.read_int() {
            Some(v) => v,
            None => {
                return None;
            },
        };
        let o = off as usize;
        let pool = &self.transform.colors;
        if pool.len() >= 4 && o <= pool.len() - 4 {
            Some(Operation::ColorMultiply(pool[o], pool[o + 1], pool[o + 2], pool[o + 3]))
        } else {
            None
        }
    }

    fn read_color_add(&mut self) -> (r: Option<Operation>)
        ensures
            final(self).data == old(self).data,
            final(self).transform == old(self).transform,
            ({
                let (op, p) = sr_color_add(
                    old(self).data@,
                    old(self).transform@,
                    old(self).position as int,
                );
                r == op && final(self).position == p
            }),
    {
        let off = match self.read_int() {
            Some(v) => v,
            None => {
                return None;
            },
        };
        let o = off as usize;
        let pool = &self.transform.colors;
        if pool.len() >= 4 && o <= pool.len() - 4 {
            Some(Operation::ColorAdd(pool[o], pool[o + 1], pool[o + 2], pool[o + 3]))
        } else {
            None
        }
    }

    /// Read one whole transformation at the cursor.
    pub fn read_transformation(&mut self) -> (r: Option<SpriteTransform>)
        ensures
            final(self).data == old(self).data,
            final(self).transform == old(self).transform,
            ({
                let (ops, p) = sr_transformation(
                    old(self).data@,
                    old(self).transform@,
                    old(self).position as int,
                );
                final(self).position == p && (match (r, ops) {
                    (Some(st), Some(o)) => st@ == o,
                    (None, None) => true,
                    _ => false,
                })
            }),
    {
        let tag = match self.read_int() {
            Some(v) => v,
            None => {
                return None;
            },
        };
        if tag > 15 {
            return None;
        }
        let mut ops: Vec<Operation> = Vec::new();
        proof {
            assert(ops@ =~= Seq::<Operation>::empty());
        }
        if tag & 4 == 4 {
            match self.read_color_multiply() {
                Some(op) => {
                    let ghost before = ops@;
                    ops.push(op);
                    proof {
                        assert(ops@ =~= before.push(op));
                    }
                },
                None => {
                    return None;
                },
            }
        }
        if tag & 8 == 8 {
            match self.read_color_add() {
                Some(op) => {
                    let ghost before = ops@;
                    ops.push(op);
                    proof {
                        assert(ops@ =~= before.push(op));
                    }
                },
                None => {
                    return None;
                },
            }
        }
        if tag & 1 == 1 {
            match self.read_rotation() {
                Some(op) => {
                    let ghost before = ops@;
                    ops.push(op);
                    proof {
                        assert(ops@ =~= before.push(op));
                    }
                },
                None => {
                    return None;
                },
            }
        }
        if tag & 2 == 2 {
            match self.read_translation() {
                Some(op) => {
                    let ghost before = ops@;
                    ops.push(op);
                    proof {
                        assert(ops@ =~= before.push(op));
                    }
                },
                None => {
                    return None;
                },
            }
        }
        Some(SpriteTransform { ops })
    }
}

} // verus!
