//! The structured decoder: little-endian primitives, count-prefixed lists,
//! null-terminated strings, and the domain types built from them.
//!
//! Every decode function is specified against a spec-level grammar (`sd_*`
//! functions) over the byte sequence and a read position; a decode either
//! returns exactly the value the grammar gives and leaves the reader at the
//! position after it, or fails with exactly the error the grammar gives.

use vstd::prelude::*;

use std::collections::HashMap;

use crate::types::Action;
use crate::types::ActionV;
use crate::types::Animation;
use crate::types::AnimationExtension;
use crate::types::AnimationExtensionV;
use crate::types::AnimationFile;
use crate::types::AnimationFileV;
use crate::types::AnimationFlags;
use crate::types::AnimationIndex;
use crate::types::AnimationIndexV;
use crate::types::AnimationV;
use crate::types::AnimationVersion;
use crate::types::Color;
use crate::types::FrameData;
use crate::types::FrameDataV;
use crate::types::HiddenPart;
use crate::types::HiddenPartV;
use crate::types::HideablePart;
use crate::types::Import;
use crate::types::ImportV;
use crate::types::Shape;
use crate::types::Sprite;
use crate::types::SpriteFlags;
use crate::types::SpriteName;
use crate::types::SpriteNameV;
use crate::types::SpritePayload;
use crate::types::SpritePayloadV;
use crate::types::SpriteV;
use crate::types::Texture;
use crate::types::TextureV;
use crate::types::TransformTable;
use crate::types::TransformTableV;
use crate::types::UNIT_ALPHA_BITS;
use crate::types::opt_view;
use crate::types::opt_views_of;
use crate::types::sprite_map_view;
use crate::types::strings_view;
use crate::types::views_of;

verus! {

broadcast use vstd::std_specs::hash::group_hash_axioms;

/// Why decoding a record failed. Decoding aborts at the first error; no
/// partial value is returned.
#[derive(Debug, Clone, Copy, PartialEq, Eq, Structural)]
pub enum DecodeError {
    /// The record ended before the field being read was complete.
    Truncated,
    /// A name was not valid UTF-8.
    InvalidUtf8,
    /// An unrecognized sprite payload selector.
    UnknownSpriteTag(i8),
    /// An unrecognized frame-tape element width selector.
    UnknownFrameDataTag(u8),
    /// An unrecognized action kind.
    UnknownActionTag(u8),
}

/// A cursor over the bytes of one animation record.
pub struct ByteReader<'a> {
    pub bytes: &'a [u8],
    pub pos: usize,
}

impl<'a> ByteReader<'a> {
    /// The cursor never stands past the end of the record.
    pub open spec fn wf(&self) -> bool {
        self.pos <= self.bytes@.len()
    }

    pub fn new(bytes: &'a [u8]) -> (r: ByteReader<'a>)
        ensures
            r.wf(),
            r.bytes@ == bytes@,
            r.pos == 0,
    {
        ByteReader { bytes, pos: 0 }
    }

    pub fn read_u8(&mut self) -> (r: Result<u8, DecodeError>)
        requires
            old(self).wf(),
        ensures
            final(self).wf(),
            final(self).bytes@ == old(self).bytes@,
            match sd_u8(old(self).bytes@, old(self).pos as int) {
                Ok((v, p)) => r == Ok::<u8, DecodeError>(v) && final(self).pos == p,
                Err(e) => r == Err::<u8, DecodeError>(e) && final(self).pos == old(self).pos,
            },
    {
        if self.bytes.len() - self.pos >= 1 {
            let b0 = self.bytes[self.pos];
            self.pos = self.pos + 1;
            Ok(b0)
        } else {
            Err(DecodeError::Truncated)
        }
    }

    pub fn read_u16(&mut self) -> (r: Result<u16, DecodeError>)
        requires
            old(self).wf(),
        ensures
            final(self).wf(),
            final(self).bytes@ == old(self).bytes@,
            match sd_u16(old(self).bytes@, old(self).pos as int) {
                Ok((v, p)) => r == Ok::<u16, DecodeError>(v) && final(self).pos == p,
                Err(e) => r == Err::<u16, DecodeError>(e) && final(self).pos == old(self).pos,
            },
    {
        if self.bytes.len() - self.pos >= 2 {
            let b0 = self.bytes[self.pos];
            let b1 = self.bytes[self.pos + 1];
            self.pos = self.pos + 2;
            Ok(b0 as u16 + b1 as u16 * 256)
        } else {
            Err(DecodeError::Truncated)
        }
    }

    pub fn read_u32(&mut self) -> (r: Result<u32, DecodeError>)
        requires
            old(self).wf(),
        ensures
            final(self).wf(),
            final(self).bytes@ == old(self).bytes@,
            match sd_u32(old(self).bytes@, old(self).pos as int) {
                Ok((v, p)) => r == Ok::<u32, DecodeError>(v) && final(self).pos == p,
                Err(e) => r == Err::<u32, DecodeError>(e) && final(self).pos == old(self).pos,
            },
    {
        if self.bytes.len() - self.pos >= 4 {
            let b0 = self.bytes[self.pos];
            let b1 = self.bytes[self.pos + 1];
            let b2 = self.bytes[self.pos + 2];
            let b3 = self.bytes[self.pos + 3];
            self.pos = self.pos + 4;
            Ok(
                b0 as u32 + b1 as u32 * 0x100 + b2 as u32 * 0x10000 + b3 as u32
                    * 0x1000000,
            )
        } else {
            Err(DecodeError::Truncated)
        }
    }
}

/// One byte at position `p`.
pub open spec fn sd_u8(b: Seq<u8>, p: int) -> Result<(u8, int), DecodeError> {
    if 0 <= p && p + 1 <= b.len() {
        Ok((b[p], p + 1))
    } else {
        Err(DecodeError::Truncated)
    }
}

/// A little-endian 16-bit unsigned integer at position `p`.
pub open spec fn sd_u16(b: Seq<u8>, p: int) -> Result<(u16, int), DecodeError> {
    if 0 <= p && p + 2 <= b.len() {
        Ok((((b[p] as int) + (b[p + 1] as int) * 256) as u16, p + 2))
    } else {
        Err(DecodeError::Truncated)
    }
}

/// A little-endian 32-bit unsigned integer at position `p`.
pub open spec fn sd_u32(b: Seq<u8>, p: int) -> Result<(u32, int), DecodeError> {
    if 0 <= p && p + 4 <= b.len() {
        Ok(
            (((b[p] as int) + (b[p + 1] as int) * 0x100 + (b[p + 2] as int) * 0x10000 + (b[p
                + 3] as int) * 0x1000000) as u32, p + 4),
        )
    } else {
        Err(DecodeError::Truncated)
    }
}

/// A signed 8-bit integer: the byte reinterpreted.
pub open spec fn sd_i8(b: Seq<u8>, p: int) -> Result<(i8, int), DecodeError> {
    match sd_u8(b, p) {
        Ok((v, q)) => Ok((v as i8, q)),
        Err(e) => Err(e),
    }
}

/// A little-endian signed 16-bit integer: the unsigned value reinterpreted.
pub open spec fn sd_i16(b: Seq<u8>, p: int) -> Result<(i16, int), DecodeError> {
    match sd_u16(b, p) {
        Ok((v, q)) => Ok((v as i16, q)),
        Err(e) => Err(e),
    }
}

/// A little-endian signed 32-bit integer: the unsigned value reinterpreted.
pub open spec fn sd_i32(b: Seq<u8>, p: int) -> Result<(i32, int), DecodeError> {
    match sd_u32(b, p) {
        Ok((v, q)) => Ok((v as i32, q)),
        Err(e) => Err(e),
    }
}

/// The raw bytes of a null-terminated string at position `p`, without the
/// terminator; the returned position stands after the terminator.
pub open spec fn sd_cstring_bytes(b: Seq<u8>, p: int) -> Result<(Seq<u8>, int), DecodeError>
    decreases b.len() - p,
{
    if 0 <= p && p < b.len() {
        if b[p] == 0 {
            Ok((Seq::empty(), p + 1))
        } else {
            match sd_cstring_bytes(b, p + 1) {
                Ok((s, q)) => Ok((seq![b[p]] + s, q)),
                Err(e) => Err(e),
            }
        }
    } else {
        Err(DecodeError::Truncated)
    }
}

/// What `String::from_utf8` decodes the bytes to: `Some` exactly on valid
/// UTF-8. Stated only through the trusted wrapper below.
pub uninterp spec fn utf8_decode(bytes: Seq<u8>) -> Option<Seq<char>>;

/// Relies on `String::from_utf8`: it returns the UTF-8 decoding of the given
/// bytes exactly when they are valid UTF-8, and rejects them otherwise.
#[verifier::external_body]
fn string_from_utf8(bytes: Vec<u8>) -> (r: Option<String>)
    ensures
        r is Some <==> utf8_decode(bytes@) is Some,
        r matches Some(s) ==> utf8_decode(bytes@) == Some(s@),
{
    String::from_utf8(bytes).ok()
}

/// A null-terminated UTF-8 string at position `p`; bytes that are not valid
/// UTF-8 are a hard failure.
pub open spec fn sd_string(b: Seq<u8>, p: int) -> Result<(Seq<char>, int), DecodeError> {
    match sd_cstring_bytes(b, p) {
        Ok((raw, q)) => match utf8_decode(raw) {
            Some(s) => Ok((s, q)),
            None => Err(DecodeError::InvalidUtf8),
        },
        Err(e) => Err(e),
    }
}

/// A value of a decodable type, tied byte for byte to its grammar.
pub trait Decode: View + Sized {
    /// The byte-level grammar of one value of this type at position `p`.
    spec fn sd(b: Seq<u8>, p: int) -> Result<(Self::V, int), DecodeError>;

    /// Decode one value, advancing the reader exactly as `Self::sd` says.
    fn decode(r: &mut ByteReader) -> (res: Result<Self, DecodeError>)
        requires
            old(r).wf(),
        ensures
            final(r).wf(),
            final(r).bytes@ == old(r).bytes@,
            match Self::sd(old(r).bytes@, old(r).pos as int) {
                Ok((v, p)) => res matches Ok(x) && x@ == v && final(r).pos == p,
                Err(e) => res matches Err(e2) && e2 == e,
            },
    ;
}

impl Decode for u8 {
    open spec fn sd(b: Seq<u8>, p: int) -> Result<(u8, int), DecodeError> {
        sd_u8(b, p)
    }

    fn decode(r: &mut ByteReader) -> (res: Result<u8, DecodeError>) {
        r.read_u8()
    }
}

impl Decode for i8 {
    open spec fn sd(b: Seq<u8>, p: int) -> Result<(i8, int), DecodeError> {
        sd_i8(b, p)
    }

    fn decode(r: &mut ByteReader) -> (res: Result<i8, DecodeError>) {
        match r.read_u8() {
            Ok(v) => Ok(v as i8),
            Err(e) => Err(e),
        }
    }
}

impl Decode for u16 {
    open spec fn sd(b: Seq<u8>, p: int) -> Result<(u16, int), DecodeError> {
        sd_u16(b, p)
    }

    fn decode(r: &mut ByteReader) -> (res: Result<u16, DecodeError>) {
        r.read_u16()
    }
}

impl Decode for i16 {
    open spec fn sd(b: Seq<u8>, p: int) -> Result<(i16, int), DecodeError> {
        sd_i16(b, p)
    }

    fn decode(r: &mut ByteReader) -> (res: Result<i16, DecodeError>) {
        match r.read_u16() {
            Ok(v) => Ok(v as i16),
            Err(e) => Err(e),
        }
    }
}

impl Decode for u32 {
    open spec fn sd(b: Seq<u8>, p: int) -> Result<(u32, int), DecodeError> {
        sd_u32(b, p)
    }

    fn decode(r: &mut ByteReader) -> (res: Result<u32, DecodeError>) {
        r.read_u32()
    }
}

impl Decode for i32 {
    open spec fn sd(b: Seq<u8>, p: int) -> Result<(i32, int), DecodeError> {
        sd_i32(b, p)
    }

    fn decode(r: &mut ByteReader) -> (res: Result<i32, DecodeError>) {
        match r.read_u32() {
            Ok(v) => Ok(v as i32),
            Err(e) => Err(e),
        }
    }
}

impl Decode for String {
    open spec fn sd(b: Seq<u8>, p: int) -> Result<(Seq<char>, int), DecodeError> {
        sd_string(b, p)
    }

    fn decode(r: &mut ByteReader) -> (res: Result<String, DecodeError>) {
        let ghost b = r.bytes@;
        let ghost p0 = r.pos as int;
        let mut buf: Vec<u8> = Vec::new();
        loop
            invariant_except_break
                b == old(r).bytes@,
                p0 == old(r).pos as int,
                r.wf(),
                r.bytes@ == b,
                sd_cstring_bytes(b, p0) == (match sd_cstring_bytes(b, r.pos as int) {
                    Ok((s, q)) => Ok::<(Seq<u8>, int), DecodeError>((buf@ + s, q)),
                    Err(e) => Err::<(Seq<u8>, int), DecodeError>(e),
                }),
            ensures
                b == old(r).bytes@,
                p0 == old(r).pos as int,
                r.wf(),
                r.bytes@ == b,
                sd_cstring_bytes(b, p0) == Ok::<(Seq<u8>, int), DecodeError>((buf@, r.pos as int)),
            decreases b.len() - r.pos,
        {
            let c = match r.read_u8() {
                Ok(c) => c,
                Err(e) => {
                    return Err(e);
                },
            };
            if c == 0 {
                proof {
                    assert(buf@ + Seq::<u8>::empty() =~= buf@);
                }
                break ;
            }
            let ghost buf_old = buf@;
            buf.push(c);
            proof {
                assert(forall|s: Seq<u8>| buf_old + (seq![c] + s) =~= buf@ + s);
            }
        }
        match string_from_utf8(buf) {
            Some(s) => Ok(s),
            None => Err(DecodeError::InvalidUtf8),
        }
    }
}

/// `n` consecutive values of an element grammar, starting at position `p`.
pub open spec fn sd_list<V>(
    b: Seq<u8>,
    p: int,
    n: nat,
    elem: spec_fn(Seq<u8>, int) -> Result<(V, int), DecodeError>,
) -> Result<(Seq<V>, int), DecodeError>
    decreases n,
{
    if n == 0 {
        Ok((Seq::empty(), p))
    } else {
        match elem(b, p) {
            Err(e) => Err(e),
            Ok((x, p1)) => match sd_list(b, p1, (n - 1) as nat, elem) {
                Err(e) => Err(e),
                Ok((xs, p2)) => Ok((seq![x] + xs, p2)),
            },
        }
    }
}

/// `n` consecutive values of a decodable type.
pub open spec fn sd_list_of<T: Decode>(b: Seq<u8>, p: int, n: nat) -> Result<
    (Seq<T::V>, int),
    DecodeError,
> {
    sd_list(b, p, n, |bb: Seq<u8>, pp: int| T::sd(bb, pp))
}

/// Decode exactly `n` values of `T`, in order.
pub fn decode_n<T: Decode>(r: &mut ByteReader, n: usize) -> (res: Result<Vec<T>, DecodeError>)
    requires
        old(r).wf(),
    ensures
        final(r).wf(),
        final(r).bytes@ == old(r).bytes@,
        match sd_list_of::<T>(old(r).bytes@, old(r).pos as int, n as nat) {
            Ok((s, p)) => res matches Ok(v) && views_of(v@) == s && final(r).pos == p,
            Err(e) => res matches Err(e2) && e2 == e,
        },
{
    let ghost b = r.bytes@;
    let ghost p0 = r.pos as int;
    let mut out: Vec<T> = Vec::new();
    let mut i: usize = 0;
    proof {
        assert(views_of(out@) =~= Seq::<T::V>::empty());
    }
    while i < n
        invariant
            b == old(r).bytes@,
            p0 == old(r).pos as int,
            i <= n,
            r.wf(),
            r.bytes@ == b,
            sd_list_of::<T>(b, p0, n as nat) == (match sd_list_of::<T>(
                b,
                r.pos as int,
                (n - i) as nat,
            ) {
                Ok((s, p)) => Ok::<(Seq<T::V>, int), DecodeError>(
                    (views_of(out@) + s, p),
                ),
                Err(e) => Err::<(Seq<T::V>, int), DecodeError>(e),
            }),
        decreases n - i,
    {
        let ghost views_old = views_of(out@);
        let x = match T::decode(r) {
            Ok(x) => x,
            Err(e) => {
                return Err(e);
            },
        };
        proof {
            assert(views_old.push(x@) =~= views_of(out@.push(x)));
            assert(forall|s: Seq<T::V>| views_old + (seq![x@] + s) =~= views_old.push(x@) + s);
        }
        out.push(x);
        i = i + 1;
    }
    proof {
        assert(views_of(out@) + Seq::<T::V>::empty() =~= views_of(out@));
    }
    Ok(out)
}

/// A `u16`-count-prefixed list of `T`.
pub open spec fn sd_prefixed_u16<T: Decode>(b: Seq<u8>, p: int) -> Result<
    (Seq<T::V>, int),
    DecodeError,
> {
    match sd_u16(b, p) {
        Err(e) => Err(e),
        Ok((n, p1)) => sd_list_of::<T>(b, p1, n as nat),
    }
}

/// Decode a `u16`-count-prefixed list of `T`.
pub fn decode_prefixed_u16<T: Decode>(r: &mut ByteReader) -> (res: Result<Vec<T>, DecodeError>)
    requires
        old(r).wf(),
    ensures
        final(r).wf(),
        final(r).bytes@ == old(r).bytes@,
        match sd_prefixed_u16::<T>(old(r).bytes@, old(r).pos as int) {
            Ok((s, p)) => res matches Ok(v) && views_of(v@) == s && final(r).pos == p,
            Err(e) => res matches Err(e2) && e2 == e,
        },
{
    let n = match r.read_u16() {
        Ok(n) => n,
        Err(e) => {
            return Err(e);
        },
    };
    decode_n::<T>(r, n as usize)
}

/// A `u32`-count-prefixed list of `T`.
pub open spec fn sd_prefixed_u32<T: Decode>(b: Seq<u8>, p: int) -> Result<
    (Seq<T::V>, int),
    DecodeError,
> {
    match sd_u32(b, p) {
        Err(e) => Err(e),
        Ok((n, p1)) => sd_list_of::<T>(b, p1, n as nat),
    }
}

/// Decode a `u32`-count-prefixed list of `T`.
pub fn decode_prefixed_u32<T: Decode>(r: &mut ByteReader) -> (res: Result<Vec<T>, DecodeError>)
    requires
        old(r).wf(),
    ensures
        final(r).wf(),
        final(r).bytes@ == old(r).bytes@,
        match sd_prefixed_u32::<T>(old(r).bytes@, old(r).pos as int) {
            Ok((s, p)) => res matches Ok(v) && views_of(v@) == s && final(r).pos == p,
            Err(e) => res matches Err(e2) && e2 == e,
        },
{
    let n = match r.read_u32() {
        Ok(n) => n,
        Err(e) => {
            return Err(e);
        },
    };
    decode_n::<T>(r, n as usize)
}

/// A `u8`-count-prefixed list of `T`.
pub open spec fn sd_prefixed_u8<T: Decode>(b: Seq<u8>, p: int) -> Result<
    (Seq<T::V>, int),
    DecodeError,
> {
    match sd_u8(b, p) {
        Err(e) => Err(e),
        Ok((n, p1)) => sd_list_of::<T>(b, p1, n as nat),
    }
}

/// Decode a `u8`-count-prefixed list of `T`.
pub fn decode_prefixed_u8<T: Decode>(r: &mut ByteReader) -> (res: Result<Vec<T>, DecodeError>)
    requires
        old(r).wf(),
    ensures
        final(r).wf(),
        final(r).bytes@ == old(r).bytes@,
        match sd_prefixed_u8::<T>(old(r).bytes@, old(r).pos as int) {
            Ok((s, p)) => res matches Ok(v) && views_of(v@) == s && final(r).pos == p,
            Err(e) => res matches Err(e2) && e2 == e,
        },
{
    let n = match r.read_u8() {
        Ok(n) => n,
        Err(e) => {
            return Err(e);
        },
    };
    decode_n::<T>(r, n as usize)
}

/// An optional field: read one `T` when the gating flag is set, read nothing
/// otherwise.
pub open spec fn sd_opt<T: Decode>(b: Seq<u8>, p: int, present: bool) -> Result<
    (Option<T::V>, int),
    DecodeError,
> {
    if present {
        match T::sd(b, p) {
            Ok((v, q)) => Ok((Some(v), q)),
            Err(e) => Err(e),
        }
    } else {
        Ok((None, p))
    }
}

/// Decode an optional field gated by `present`.
pub fn decode_opt<T: Decode>(r: &mut ByteReader, present: bool) -> (res: Result<
    Option<T>,
    DecodeError,
>)
    requires
        old(r).wf(),
    ensures
        final(r).wf(),
        final(r).bytes@ == old(r).bytes@,
        match sd_opt::<T>(old(r).bytes@, old(r).pos as int, present) {
            Ok((v, p)) => res matches Ok(x) && opt_view(x) == v && final(r).pos == p,
            Err(e) => res matches Err(e2) && e2 == e,
        },
{
    if present {
        match T::decode(r) {
            Ok(v) => Ok(Some(v)),
            Err(e) => Err(e),
        }
    } else {
        Ok(None)
    }
}

impl<A: Decode, B: Decode> Decode for (A, B) {
    open spec fn sd(b: Seq<u8>, p: int) -> Result<((A::V, B::V), int), DecodeError> {
        match A::sd(b, p) {
            Err(e) => Err(e),
            Ok((x, p1)) => match B::sd(b, p1) {
                Err(e) => Err(e),
                Ok((y, p2)) => Ok(((x, y), p2)),
            },
        }
    }

    fn decode(r: &mut ByteReader) -> (res: Result<(A, B), DecodeError>) {
        let x = match A::decode(r) {
            Ok(x) => x,
            Err(e) => {
                return Err(e);
            },
        };
        let y = match B::decode(r) {
            Ok(y) => y,
            Err(e) => {
                return Err(e);
            },
        };
        Ok((x, y))
    }
}

/// A texture reference: name, then CRC.
pub open spec fn sd_texture(b: Seq<u8>, p: int) -> Result<(TextureV, int), DecodeError> {
    match sd_string(b, p) {
        Err(e) => Err(e),
        Ok((name, p1)) => match sd_i32(b, p1) {
            Err(e) => Err(e),
            Ok((crc, p2)) => Ok((TextureV { name, crc }, p2)),
        },
    }
}

impl Decode for Texture {
    open spec fn sd(b: Seq<u8>, p: int) -> Result<(TextureV, int), DecodeError> {
        sd_texture(b, p)
    }

    fn decode(r: &mut ByteReader) -> (res: Result<Texture, DecodeError>) {
        let name = match String::decode(r) {
            Ok(v) => v,
            Err(e) => {
                return Err(e);
            },
        };
        let crc = match r.read_u32() {
            Ok(v) => v as i32,
            Err(e) => {
                return Err(e);
            },
        };
        Ok(Texture { name, crc })
    }
}

impl Decode for AnimationVersion {
    open spec fn sd(b: Seq<u8>, p: int) -> Result<(AnimationVersion, int), DecodeError> {
        match sd_u8(b, p) {
            Ok((v, q)) => Ok((AnimationVersion(v), q)),
            Err(e) => Err(e),
        }
    }

    fn decode(r: &mut ByteReader) -> (res: Result<AnimationVersion, DecodeError>) {
        match r.read_u8() {
            Ok(v) => Ok(AnimationVersion(v)),
            Err(e) => Err(e),
        }
    }
}

impl Decode for AnimationFlags {
    open spec fn sd(b: Seq<u8>, p: int) -> Result<(AnimationFlags, int), DecodeError> {
        match sd_u8(b, p) {
            Ok((v, q)) => Ok((AnimationFlags(v), q)),
            Err(e) => Err(e),
        }
    }

    fn decode(r: &mut ByteReader) -> (res: Result<AnimationFlags, DecodeError>) {
        match r.read_u8() {
            Ok(v) => Ok(AnimationFlags(v)),
            Err(e) => Err(e),
        }
    }
}

impl Decode for SpriteFlags {
    open spec fn sd(b: Seq<u8>, p: int) -> Result<(SpriteFlags, int), DecodeError> {
        match sd_u8(b, p) {
            Ok((v, q)) => Ok((SpriteFlags(v), q)),
            Err(e) => Err(e),
        }
    }

    fn decode(r: &mut ByteReader) -> (res: Result<SpriteFlags, DecodeError>) {
        match r.read_u8() {
            Ok(v) => Ok(SpriteFlags(v)),
            Err(e) => Err(e),
        }
    }
}

/// A color: three stored channels; the alpha channel is implied as one.
pub open spec fn sd_color(b: Seq<u8>, p: int) -> Result<(Color, int), DecodeError> {
    match sd_u32(b, p) {
        Err(e) => Err(e),
        Ok((red_bits, p1)) => match sd_u32(b, p1) {
            Err(e) => Err(e),
            Ok((green_bits, p2)) => match sd_u32(b, p2) {
                Err(e) => Err(e),
                Ok((blue_bits, p3)) => Ok(
                    (
                        Color { red_bits, green_bits, blue_bits, alpha_bits: UNIT_ALPHA_BITS },
                        p3,
                    ),
                ),
            },
        },
    }
}

impl Decode for Color {
    open spec fn sd(b: Seq<u8>, p: int) -> Result<(Color, int), DecodeError> {
        sd_color(b, p)
    }

    fn decode(r: &mut ByteReader) -> (res: Result<Color, DecodeError>) {
        let red_bits = match r.read_u32() {
            Ok(v) => v,
            Err(e) => {
                return Err(e);
            },
        };
        let green_bits = match r.read_u32() {
            Ok(v) => v,
            Err(e) => {
                return Err(e);
            },
        };
        let blue_bits = match r.read_u32() {
            Ok(v) => v,
            Err(e) => {
                return Err(e);
            },
        };
        Ok(Color { red_bits, green_bits, blue_bits, alpha_bits: UNIT_ALPHA_BITS })
    }
}

impl Decode for HideablePart {
    open spec fn sd(b: Seq<u8>, p: int) -> Result<(HideablePart, int), DecodeError> {
        match sd_i32(b, p) {
            Err(e) => Err(e),
            Ok((crc_key, p1)) => match sd_i32(b, p1) {
                Err(e) => Err(e),
                Ok((crc_to_hide, p2)) => Ok((HideablePart { crc_key, crc_to_hide }, p2)),
            },
        }
    }

    fn decode(r: &mut ByteReader) -> (res: Result<HideablePart, DecodeError>) {
        let crc_key = match i32::decode(r) {
            Ok(v) => v,
            Err(e) => {
                return Err(e);
            },
        };
        let crc_to_hide = match i32::decode(r) {
            Ok(v) => v,
            Err(e) => {
                return Err(e);
            },
        };
        Ok(HideablePart { crc_key, crc_to_hide })
    }
}

impl Decode for HiddenPart {
    open spec fn sd(b: Seq<u8>, p: int) -> Result<(HiddenPartV, int), DecodeError> {
        match sd_string(b, p) {
            Err(e) => Err(e),
            Ok((item_name, p1)) => match sd_i32(b, p1) {
                Err(e) => Err(e),
                Ok((crc_key, p2)) => Ok((HiddenPartV { item_name, crc_key }, p2)),
            },
        }
    }

    fn decode(r: &mut ByteReader) -> (res: Result<HiddenPart, DecodeError>) {
        let item_name = match String::decode(r) {
            Ok(v) => v,
            Err(e) => {
                return Err(e);
            },
        };
        let crc_key = match i32::decode(r) {
            Ok(v) => v,
            Err(e) => {
                return Err(e);
            },
        };
        Ok(HiddenPart { item_name, crc_key })
    }
}

impl Decode for AnimationFile {
    open spec fn sd(b: Seq<u8>, p: int) -> Result<(AnimationFileV, int), DecodeError> {
        match sd_string(b, p) {
            Err(e) => Err(e),
            Ok((name, p1)) => match sd_i32(b, p1) {
                Err(e) => Err(e),
                Ok((crc, p2)) => match sd_i16(b, p2) {
                    Err(e) => Err(e),
                    Ok((file_index, p3)) => Ok((AnimationFileV { name, crc, file_index }, p3)),
                },
            },
        }
    }

    fn decode(r: &mut ByteReader) -> (res: Result<AnimationFile, DecodeError>) {
        let name = match String::decode(r) {
            Ok(v) => v,
            Err(e) => {
                return Err(e);
            },
        };
        let crc = match i32::decode(r) {
            Ok(v) => v,
            Err(e) => {
                return Err(e);
            },
        };
        let file_index = match i16::decode(r) {
            Ok(v) => v,
            Err(e) => {
                return Err(e);
            },
        };
        Ok(AnimationFile { name, crc, file_index })
    }
}

impl Decode for Import {
    open spec fn sd(b: Seq<u8>, p: int) -> Result<(ImportV, int), DecodeError> {
        match sd_i16(b, p) {
            Err(e) => Err(e),
            Ok((id, p1)) => match sd_string(b, p1) {
                Err(e) => Err(e),
                Ok((name, p2)) => match sd_i32(b, p2) {
                    Err(e) => Err(e),
                    Ok((crc, p3)) => Ok((ImportV { id, name, crc }, p3)),
                },
            },
        }
    }

    fn decode(r: &mut ByteReader) -> (res: Result<Import, DecodeError>) {
        let id = match i16::decode(r) {
            Ok(v) => v,
            Err(e) => {
                return Err(e);
            },
        };
        let name = match String::decode(r) {
            Ok(v) => v,
            Err(e) => {
                return Err(e);
            },
        };
        let crc = match i32::decode(r) {
            Ok(v) => v,
            Err(e) => {
                return Err(e);
            },
        };
        Ok(Import { id, name, crc })
    }
}

/// A shape record: ids, the four raw UV edge numerators, on-screen size, and
/// the local offset as stored single-precision bit patterns.
pub open spec fn sd_shape(b: Seq<u8>, p: int) -> Result<(Shape, int), DecodeError> {
    match sd_i16(b, p) {
        Err(e) => Err(e),
        Ok((id, p1)) => match sd_i16(b, p1) {
            Err(e) => Err(e),
            Ok((texture_index, p2)) => match sd_u16(b, p2) {
                Err(e) => Err(e),
                Ok((top, p3)) => match sd_u16(b, p3) {
                    Err(e) => Err(e),
                    Ok((left, p4)) => match sd_u16(b, p4) {
                        Err(e) => Err(e),
                        Ok((bottom, p5)) => match sd_u16(b, p5) {
                            Err(e) => Err(e),
                            Ok((right, p6)) => match sd_i16(b, p6) {
                                Err(e) => Err(e),
                                Ok((width, p7)) => match sd_i16(b, p7) {
                                    Err(e) => Err(e),
                                    Ok((height, p8)) => match sd_u32(b, p8) {
                                        Err(e) => Err(e),
                                        Ok((offset_x_bits, p9)) => match sd_u32(b, p9) {
                                            Err(e) => Err(e),
                                            Ok((offset_y_bits, p10)) => Ok(
                                                (
                                                    Shape {
                                                        id,
                                                        texture_index,
                                                        top,
                                                        left,
                                                        bottom,
                                                        right,
                                                        width,
                                                        height,
                                                        offset_x_bits,
                                                        offset_y_bits,
                                                    },
                                                    p10,
                                                ),
                                            ),
                                        },
                                    },
                                },
                            },
                        },
                    },
                },
            },
        },
    }
}

impl Decode for Shape {
    open spec fn sd(b: Seq<u8>, p: int) -> Result<(Shape, int), DecodeError> {
        sd_shape(b, p)
    }

    fn decode(r: &mut ByteReader) -> (res: Result<Shape, DecodeError>) {
        let id = match i16::decode(r) {
            Ok(v) => v,
            Err(e) => {
                return Err(e);
            },
        };
        let texture_index = match i16::decode(r) {
            Ok(v) => v,
            Err(e) => {
                return Err(e);
            },
        };
        let top = match r.read_u16() {
            Ok(v) => v,
            Err(e) => {
                return Err(e);
            },
        };
        let left = match r.read_u16() {
            Ok(v) => v,
            Err(e) => {
                return Err(e);
            },
        };
        let bottom = match r.read_u16() {
            Ok(v) => v,
            Err(e) => {
                return Err(e);
            },
        };
        let right = match r.read_u16() {
            Ok(v) => v,
            Err(e) => {
                return Err(e);
            },
        };
        let width = match i16::decode(r) {
            Ok(v) => v,
            Err(e) => {
                return Err(e);
            },
        };
        let height = match i16::decode(r) {
            Ok(v) => v,
            Err(e) => {
                return Err(e);
            },
        };
        let offset_x_bits = match r.read_u32() {
            Ok(v) => v,
            Err(e) => {
                return Err(e);
            },
        };
        let offset_y_bits = match r.read_u32() {
            Ok(v) => v,
            Err(e) => {
                return Err(e);
            },
        };
        Ok(
            Shape {
                id,
                texture_index,
                top,
                left,
                bottom,
                right,
                width,
                height,
                offset_x_bits,
                offset_y_bits,
            },
        )
    }
}

/// One less than a declared parameter count, with wrapping byte arithmetic:
/// a count of zero gives 255.
pub open spec fn spec_wrap_less_one(c: u8) -> u8 {
    if c == 0 {
        255
    } else {
        (c - 1) as u8
    }
}

/// The marker name that switches a random branch to its packed layout.
pub open spec fn optimized_marker() -> Seq<char> {
    "#optimized"@
}

/// First components of a sequence of string pairs.
pub open spec fn firsts(s: Seq<(Seq<char>, Seq<char>)>) -> Seq<Seq<char>> {
    s.map_values(|pr: (Seq<char>, Seq<char>)| pr.0)
}

/// Second components of a sequence of string pairs.
pub open spec fn seconds(s: Seq<(Seq<char>, Seq<char>)>) -> Seq<Seq<char>> {
    s.map_values(|pr: (Seq<char>, Seq<char>)| pr.1)
}

/// The body of an action after its kind byte and parameter count: per-kind
/// arity, including the parity- and threshold-gated trailing arguments.
pub open spec fn sd_action_body(b: Seq<u8>, p: int, id: u8, param_count: u8) -> Result<
    (ActionV, int),
    DecodeError,
> {
    if id == 1 {
        match sd_string(b, p) {
            Err(e) => Err(e),
            Ok((name, p1)) => match sd_opt::<u8>(b, p1, param_count == 2) {
                Err(e) => Err(e),
                Ok((percent, p2)) => Ok((ActionV::GoTo(name, percent), p2)),
            },
        }
    } else if id == 2 {
        Ok((ActionV::GoToStatic, p))
    } else if id == 3 {
        match sd_string(b, p) {
            Err(e) => Err(e),
            Ok((script, p1)) => Ok((ActionV::RunScript(script), p1)),
        }
    } else if id == 4 {
        match sd_string(b, p) {
            Err(e) => Err(e),
            Ok((first, p1)) => {
                if first == optimized_marker() {
                    let count = (spec_wrap_less_one(param_count) / 2) as u8;
                    match sd_list_of::<String>(b, p1, count as nat) {
                        Err(e) => Err(e),
                        Ok((more, p2)) => match sd_list_of::<u8>(b, p2, count as nat) {
                            Err(e) => Err(e),
                            Ok((percents, p3)) => Ok(
                                (ActionV::GoToRandom(seq![first] + more, percents), p3),
                            ),
                        },
                    }
                } else {
                    let n = spec_wrap_less_one(param_count);
                    match sd_list_of::<String>(b, p1, n as nat) {
                        Err(e) => Err(e),
                        Ok((names, p2)) => Ok((ActionV::GoToRandom(names, Seq::empty()), p2)),
                    }
                }
            },
        }
    } else if id == 5 {
        Ok((ActionV::Hit, p))
    } else if id == 6 {
        Ok((ActionV::Delete, p))
    } else if id == 7 {
        Ok((ActionV::End, p))
    } else if id == 8 {
        let count = (spec_wrap_less_one(param_count) / 2) as u8;
        match sd_list_of::<(String, String)>(b, p, count as nat) {
            Err(e) => Err(e),
            Ok((pairs, p1)) => match sd_opt::<String>(b, p1, param_count % 2 == 1) {
                Err(e) => Err(e),
                Ok((default, p2)) => Ok(
                    (ActionV::GoToIfPrevious(firsts(pairs), seconds(pairs), default), p2),
                ),
            },
        }
    } else if id == 9 {
        match sd_i32(b, p) {
            Err(e) => Err(e),
            Ok((particle_id, p1)) => match sd_opt::<i16>(b, p1, param_count > 1) {
                Err(e) => Err(e),
                Ok((x, p2)) => match sd_opt::<i16>(b, p2, param_count > 2) {
                    Err(e) => Err(e),
                    Ok((y, p3)) => match sd_opt::<i16>(b, p3, param_count > 3) {
                        Err(e) => Err(e),
                        Ok((z, p4)) => Ok((ActionV::AddParticle(particle_id, x, y, z), p4)),
                    },
                },
            },
        }
    } else if id == 10 {
        match sd_i8(b, p) {
            Err(e) => Err(e),
            Ok((radius, p1)) => Ok((ActionV::SetRadius(radius), p1)),
        }
    } else {
        Err(DecodeError::UnknownActionTag(id))
    }
}

/// An action: kind byte, parameter count, then the per-kind body.
pub open spec fn sd_action(b: Seq<u8>, p: int) -> Result<(ActionV, int), DecodeError> {
    match sd_u8(b, p) {
        Err(e) => Err(e),
        Ok((id, p1)) => match sd_u8(b, p1) {
            Err(e) => Err(e),
            Ok((param_count, p2)) => sd_action_body(b, p2, id, param_count),
        },
    }
}

impl Decode for Action {
    open spec fn sd(b: Seq<u8>, p: int) -> Result<(ActionV, int), DecodeError> {
        sd_action(b, p)
    }

    fn decode(r: &mut ByteReader) -> (res: Result<Action, DecodeError>) {
        let id = match r.read_u8() {
            Ok(v) => v,
            Err(e) => {
                return Err(e);
            },
        };
        let param_count = match r.read_u8() {
            Ok(v) => v,
            Err(e) => {
                return Err(e);
            },
        };
        if id == 1 {
            let name = match String::decode(r) {
                Ok(v) => v,
                Err(e) => {
                    return Err(e);
                },
            };
            let percent = match decode_opt::<u8>(r, param_count == 2) {
                Ok(v) => v,
                Err(e) => {
                    return Err(e);
                },
            };
            proof {
                assert(opt_view(percent) == percent);
            }
            Ok(Action::GoTo(name, percent))
        } else if id == 2 {
            Ok(Action::GoToStatic)
        } else if id == 3 {
            let script = match String::decode(r) {
                Ok(v) => v,
                Err(e) => {
                    return Err(e);
                },
            };
            Ok(Action::RunScript(script))
        } else if id == 4 {
            let first = match String::decode(r) {
                Ok(v) => v,
                Err(e) => {
                    return Err(e);
                },
            };
            let marker: String = "#optimized".to_owned();
            if first == marker {
                let less_one: u8 = if param_count == 0 {
                    255
                } else {
                    param_count - 1
                };
                let count = less_one / 2;
                let mut more = match decode_n::<String>(r, count as usize) {
                    Ok(v) => v,
                    Err(e) => {
                        return Err(e);
                    },
                };
                let percents = match decode_n::<u8>(r, count as usize) {
                    Ok(v) => v,
                    Err(e) => {
                        return Err(e);
                    },
                };
                let ghost more_views = views_of(more@);
                let ghost first_view = first@;
                let mut names: Vec<String> = Vec::new();
                names.push(first);
                names.append(&mut more);
                proof {
                    assert(strings_view(names@) =~= seq![first_view] + more_views);
                    assert(views_of(percents@) =~= percents@);
                }
                Ok(Action::GoToRandom(names, percents))
            } else {
                let n: u8 = if param_count == 0 {
                    255
                } else {
                    param_count - 1
                };
                let names = match decode_n::<String>(r, n as usize) {
                    Ok(v) => v,
                    Err(e) => {
                        return Err(e);
                    },
                };
                let percents: Vec<u8> = Vec::new();
                proof {
                    assert(percents@ =~= Seq::<u8>::empty());
                }
                Ok(Action::GoToRandom(names, percents))
            }
        } else if id == 5 {
            Ok(Action::Hit)
        } else if id == 6 {
            Ok(Action::Delete)
        } else if id == 7 {
            Ok(Action::End)
        } else if id == 8 {
            let less_one: u8 = if param_count == 0 {
                255
            } else {
                param_count - 1
            };
            let count = less_one / 2;
            let pairs = match decode_n::<(String, String)>(r, count as usize) {
                Ok(v) => v,
                Err(e) => {
                    return Err(e);
                },
            };
            let ghost pv = views_of(pairs@);
            let mut previous: Vec<String> = Vec::new();
            let mut next: Vec<String> = Vec::new();
            let mut i: usize = 0;
            proof {
                assert(strings_view(previous@) =~= firsts(pv).take(0));
                assert(strings_view(next@) =~= seconds(pv).take(0));
            }
            while i < pairs.len()
                invariant
                    i <= pairs.len(),
                    pv == views_of(pairs@),
                    strings_view(previous@) == firsts(pv).take(i as int),
                    strings_view(next@) == seconds(pv).take(i as int),
                decreases pairs.len() - i,
            {
                let ghost prev_old = strings_view(previous@);
                let ghost next_old = strings_view(next@);
                let pair = &pairs[i];
                previous.push(pair.0.clone());
                next.push(pair.1.clone());
                proof {
                    assert(strings_view(previous@) =~= prev_old.push(pv[i as int].0));
                    assert(strings_view(next@) =~= next_old.push(pv[i as int].1));
                    assert(firsts(pv).take(i + 1) =~= firsts(pv).take(i as int).push(pv[i as int].0));
                    assert(seconds(pv).take(i + 1) =~= seconds(pv).take(i as int).push(
                        pv[i as int].1,
                    ));
                }
                i = i + 1;
            }
            proof {
                assert(firsts(pv).take(pairs@.len() as int) =~= firsts(pv));
                assert(seconds(pv).take(pairs@.len() as int) =~= seconds(pv));
            }
            let default = match decode_opt::<String>(r, param_count % 2 == 1) {
                Ok(v) => v,
                Err(e) => {
                    return Err(e);
                },
            };
            Ok(Action::GoToIfPrevious(previous, next, default))
        } else if id == 9 {
            let particle_id = match i32::decode(r) {
                Ok(v) => v,
                Err(e) => {
                    return Err(e);
                },
            };
            let x = match decode_opt::<i16>(r, param_count > 1) {
                Ok(v) => v,
                Err(e) => {
                    return Err(e);
                },
            };
            let y = match decode_opt::<i16>(r, param_count > 2) {
                Ok(v) => v,
                Err(e) => {
                    return Err(e);
                },
            };
            let z = match decode_opt::<i16>(r, param_count > 3) {
                Ok(v) => v,
                Err(e) => {
                    return Err(e);
                },
            };
            proof {
                assert(opt_view(x) == x);
                assert(opt_view(y) == y);
                assert(opt_view(z) == z);
            }
            Ok(Action::AddParticle(particle_id, x, y, z))
        } else if id == 10 {
            let radius = match i8::decode(r) {
                Ok(v) => v,
                Err(e) => {
                    return Err(e);
                },
            };
            Ok(Action::SetRadius(radius))
        } else {
            Err(DecodeError::UnknownActionTag(id))
        }
    }
}

/// A frame tape: element width selector, element count, then the elements.
pub open spec fn sd_frame_data(b: Seq<u8>, p: int) -> Result<(FrameDataV, int), DecodeError> {
    match sd_u8(b, p) {
        Err(e) => Err(e),
        Ok((tag, p1)) => match sd_u32(b, p1) {
            Err(e) => Err(e),
            Ok((size, p2)) => {
                if tag == 1 {
                    match sd_list_of::<u8>(b, p2, size as nat) {
                        Err(e) => Err(e),
                        Ok((v, p3)) => Ok((FrameDataV::Bytes(v), p3)),
                    }
                } else if tag == 2 {
                    match sd_list_of::<u16>(b, p2, size as nat) {
                        Err(e) => Err(e),
                        Ok((v, p3)) => Ok((FrameDataV::Shorts(v), p3)),
                    }
                } else if tag == 4 {
                    match sd_list_of::<u32>(b, p2, size as nat) {
                        Err(e) => Err(e),
                        Ok((v, p3)) => Ok((FrameDataV::Ints(v), p3)),
                    }
                } else {
                    Err(DecodeError::UnknownFrameDataTag(tag))
                }
            },
        },
    }
}

impl Decode for FrameData {
    open spec fn sd(b: Seq<u8>, p: int) -> Result<(FrameDataV, int), DecodeError> {
        sd_frame_data(b, p)
    }

    fn decode(r: &mut ByteReader) -> (res: Result<FrameData, DecodeError>) {
        let tag = match r.read_u8() {
            Ok(v) => v,
            Err(e) => {
                return Err(e);
            },
        };
        let size = match r.read_u32() {
            Ok(v) => v,
            Err(e) => {
                return Err(e);
            },
        };
        if tag == 1 {
            let v = match decode_n::<u8>(r, size as usize) {
                Ok(v) => v,
                Err(e) => {
                    return Err(e);
                },
            };
            proof {
                assert(views_of(v@) =~= v@);
            }
            Ok(FrameData::Bytes(v))
        } else if tag == 2 {
            let v = match decode_n::<u16>(r, size as usize) {
                Ok(v) => v,
                Err(e) => {
                    return Err(e);
                },
            };
            proof {
                assert(views_of(v@) =~= v@);
            }
            Ok(FrameData::Shorts(v))
        } else if tag == 4 {
            let v = match decode_n::<u32>(r, size as usize) {
                Ok(v) => v,
                Err(e) => {
                    return Err(e);
                },
            };
            proof {
                assert(views_of(v@) =~= v@);
            }
            Ok(FrameData::Ints(v))
        } else {
            Err(DecodeError::UnknownFrameDataTag(tag))
        }
    }
}

/// A transform table: four `u32`-count-prefixed pools.
pub open spec fn sd_transform_table(b: Seq<u8>, p: int) -> Result<
    (TransformTableV, int),
    DecodeError,
> {
    match sd_prefixed_u32::<u32>(b, p) {
        Err(e) => Err(e),
        Ok((colors, p1)) => match sd_prefixed_u32::<u32>(b, p1) {
            Err(e) => Err(e),
            Ok((rotations, p2)) => match sd_prefixed_u32::<u32>(b, p2) {
                Err(e) => Err(e),
                Ok((translations, p3)) => match sd_prefixed_u32::<Action>(b, p3) {
                    Err(e) => Err(e),
                    Ok((actions, p4)) => Ok(
                        (TransformTableV { colors, rotations, translations, actions }, p4),
                    ),
                },
            },
        },
    }
}

impl Decode for TransformTable {
    open spec fn sd(b: Seq<u8>, p: int) -> Result<(TransformTableV, int), DecodeError> {
        sd_transform_table(b, p)
    }

    fn decode(r: &mut ByteReader) -> (res: Result<TransformTable, DecodeError>) {
        let colors = match decode_prefixed_u32::<u32>(r) {
            Ok(v) => v,
            Err(e) => {
                return Err(e);
            },
        };
        let rotations = match decode_prefixed_u32::<u32>(r) {
            Ok(v) => v,
            Err(e) => {
                return Err(e);
            },
        };
        let translations = match decode_prefixed_u32::<u32>(r) {
            Ok(v) => v,
            Err(e) => {
                return Err(e);
            },
        };
        let actions = match decode_prefixed_u32::<Action>(r) {
            Ok(v) => v,
            Err(e) => {
                return Err(e);
            },
        };
        proof {
            assert(views_of(colors@) =~= colors@);
            assert(views_of(rotations@) =~= rotations@);
            assert(views_of(translations@) =~= translations@);
        }
        Ok(TransformTable { colors, rotations, translations, actions })
    }
}

/// A sprite payload body, selected by the record's tag.
pub open spec fn sd_payload(b: Seq<u8>, p: int, tag: i8) -> Result<
    (SpritePayloadV, int),
    DecodeError,
> {
    if tag == 1 {
        match sd_i16(b, p) {
            Err(e) => Err(e),
            Ok((sprite_id, p1)) => match sd_prefixed_u16::<i16>(b, p1) {
                Err(e) => Err(e),
                Ok((action_info, p2)) => Ok((SpritePayloadV::Single(sprite_id, action_info), p2)),
            },
        }
    } else if tag == 2 {
        match sd_i16(b, p) {
            Err(e) => Err(e),
            Ok((sprite_id, p1)) => Ok((SpritePayloadV::SingleNoAction(sprite_id), p1)),
        }
    } else if tag == 3 {
        match sd_prefixed_u16::<i16>(b, p) {
            Err(e) => Err(e),
            Ok((sprite_ids, p1)) => match sd_prefixed_u16::<i16>(b, p1) {
                Err(e) => Err(e),
                Ok((action_info, p2)) => Ok(
                    (SpritePayloadV::SingleFrame(sprite_ids, action_info), p2),
                ),
            },
        }
    } else if tag == 4 {
        match sd_prefixed_u16::<i32>(b, p) {
            Err(e) => Err(e),
            Ok((frame_pos, p1)) => match sd_prefixed_u16::<i16>(b, p1) {
                Err(e) => Err(e),
                Ok((sprite_ids, p2)) => match sd_prefixed_u16::<i16>(b, p2) {
                    Err(e) => Err(e),
                    Ok((action_info, p3)) => Ok(
                        (SpritePayloadV::Indexed(frame_pos, sprite_ids, action_info), p3),
                    ),
                },
            },
        }
    } else {
        Err(DecodeError::UnknownSpriteTag(tag))
    }
}

/// A sprite record: tag, id, flags, optional name, CRCs, payload body, then
/// the frame tape. A record with an unrecognized tag still reads its frame
/// tape before failing, so a truncated tape reports truncation first.
pub open spec fn sd_sprite(b: Seq<u8>, p: int) -> Result<(SpriteV, int), DecodeError> {
    match sd_i8(b, p) {
        Err(e) => Err(e),
        Ok((tag, p1)) => match sd_i16(b, p1) {
            Err(e) => Err(e),
            Ok((id, p2)) => match sd_u8(b, p2) {
                Err(e) => Err(e),
                Ok((flags_raw, p3)) => match sd_opt::<String>(b, p3, flags_raw & 0x40 == 0x40) {
                    Err(e) => Err(e),
                    Ok((name, p4)) => match sd_i32(b, p4) {
                        Err(e) => Err(e),
                        Ok((name_crc, p5)) => match sd_i32(b, p5) {
                            Err(e) => Err(e),
                            Ok((base_name_crc, p6)) => {
                                if 1 <= tag && tag <= 4 {
                                    match sd_payload(b, p6, tag) {
                                        Err(e) => Err(e),
                                        Ok((payload, p7)) => match sd_frame_data(b, p7) {
                                            Err(e) => Err(e),
                                            Ok((frame_data, p8)) => Ok(
                                                (
                                                    SpriteV {
                                                        id,
                                                        name: SpriteNameV {
                                                            name,
                                                            name_crc,
                                                            base_name_crc,
                                                        },
                                                        flags: SpriteFlags(flags_raw),
                                                        frame_data,
                                                        payload,
                                                    },
                                                    p8,
                                                ),
                                            ),
                                        },
                                    }
                                } else {
                                    match sd_frame_data(b, p6) {
                                        Err(e) => Err(e),
                                        Ok(_) => Err(DecodeError::UnknownSpriteTag(tag)),
                                    }
                                }
                            },
                        },
                    },
                },
            },
        },
    }
}

impl Decode for Sprite {
    open spec fn sd(b: Seq<u8>, p: int) -> Result<(SpriteV, int), DecodeError> {
        sd_sprite(b, p)
    }

    fn decode(r: &mut ByteReader) -> (res: Result<Sprite, DecodeError>) {
        let tag = match i8::decode(r) {
            Ok(v) => v,
            Err(e) => {
                return Err(e);
            },
        };
        let id = match i16::decode(r) {
            Ok(v) => v,
            Err(e) => {
                return Err(e);
            },
        };
        let flags = match SpriteFlags::decode(r) {
            Ok(v) => v,
            Err(e) => {
                return Err(e);
            },
        };
        let name = match decode_opt::<String>(r, flags.has_name()) {
            Ok(v) => v,
            Err(e) => {
                return Err(e);
            },
        };
        let name_crc = match i32::decode(r) {
            Ok(v) => v,
            Err(e) => {
                return Err(e);
            },
        };
        let base_name_crc = match i32::decode(r) {
            Ok(v) => v,
            Err(e) => {
                return Err(e);
            },
        };
        let payload: Option<SpritePayload> = if tag == 1 {
            let sprite_id = match i16::decode(r) {
                Ok(v) => v,
                Err(e) => {
                    return Err(e);
                },
            };
            let action_info = match decode_prefixed_u16::<i16>(r) {
                Ok(v) => v,
                Err(e) => {
                    return Err(e);
                },
            };
            proof {
                assert(views_of(action_info@) =~= action_info@);
            }
            Some(SpritePayload::Single(sprite_id, action_info))
        } else if tag == 2 {
            let sprite_id = match i16::decode(r) {
                Ok(v) => v,
                Err(e) => {
                    return Err(e);
                },
            };
            Some(SpritePayload::SingleNoAction(sprite_id))
        } else if tag == 3 {
            let sprite_ids = match decode_prefixed_u16::<i16>(r) {
                Ok(v) => v,
                Err(e) => {
                    return Err(e);
                },
            };
            let action_info = match decode_prefixed_u16::<i16>(r) {
                Ok(v) => v,
                Err(e) => {
                    return Err(e);
                },
            };
            proof {
                assert(views_of(sprite_ids@) =~= sprite_ids@);
                assert(views_of(action_info@) =~= action_info@);
            }
            Some(SpritePayload::SingleFrame(sprite_ids, action_info))
        } else if tag == 4 {
            let frame_pos = match decode_prefixed_u16::<i32>(r) {
                Ok(v) => v,
                Err(e) => {
                    return Err(e);
                },
            };
            let sprite_ids = match decode_prefixed_u16::<i16>(r) {
                Ok(v) => v,
                Err(e) => {
                    return Err(e);
                },
            };
            let action_info = match decode_prefixed_u16::<i16>(r) {
                Ok(v) => v,
                Err(e) => {
                    return Err(e);
                },
            };
            proof {
                assert(views_of(frame_pos@) =~= frame_pos@);
                assert(views_of(sprite_ids@) =~= sprite_ids@);
                assert(views_of(action_info@) =~= action_info@);
            }
            Some(SpritePayload::Indexed(frame_pos, sprite_ids, action_info))
        } else {
            None
        };
        let frame_data = match FrameData::decode(r) {
            Ok(v) => v,
            Err(e) => {
                return Err(e);
            },
        };
        match payload {
            Some(payload) => Ok(
                Sprite {
                    id,
                    name: SpriteName { name, name_crc, base_name_crc },
                    flags,
                    frame_data,
                    payload,
                },
            ),
            None => Err(DecodeError::UnknownSpriteTag(tag)),
        }
    }
}

/// A stored part height bumped by one, with wrapping byte arithmetic.
pub open spec fn spec_wrap_inc(h: i8) -> i8 {
    if h == 127 {
        (-128) as i8
    } else {
        (h + 1) as i8
    }
}

/// The height map built from decoded (key, raw height) pairs, in order; a
/// repeated key keeps the last entry.
pub open spec fn heights_map(pairs: Seq<(i32, i8)>) -> Map<i32, i8>
    decreases pairs.len(),
{
    if pairs.len() == 0 {
        Map::empty()
    } else {
        heights_map(pairs.drop_last()).insert(pairs.last().0, spec_wrap_inc(pairs.last().1))
    }
}

/// An animation extension: a flag word, an optional height table, and an
/// optional highlight color.
pub open spec fn sd_extension(b: Seq<u8>, p: int) -> Result<
    (AnimationExtensionV, int),
    DecodeError,
> {
    match sd_i32(b, p) {
        Err(e) => Err(e),
        Ok((flags, p1)) => {
            if flags & 0x1 == 0x1 {
                match sd_u16(b, p1) {
                    Err(e) => Err(e),
                    Ok((count, p2)) => match sd_list_of::<(i32, i8)>(b, p2, count as nat) {
                        Err(e) => Err(e),
                        Ok((pairs, p3)) => match sd_opt::<Color>(b, p3, flags & 0x2 == 0x2) {
                            Err(e) => Err(e),
                            Ok((highlight_color, p4)) => Ok(
                                (
                                    AnimationExtensionV {
                                        heights: Some(heights_map(pairs)),
                                        highlight_color,
                                    },
                                    p4,
                                ),
                            ),
                        },
                    },
                }
            } else {
                match sd_opt::<Color>(b, p1, flags & 0x2 == 0x2) {
                    Err(e) => Err(e),
                    Ok((highlight_color, p2)) => Ok(
                        (AnimationExtensionV { heights: None, highlight_color }, p2),
                    ),
                }
            }
        },
    }
}

impl Decode for AnimationExtension {
    open spec fn sd(b: Seq<u8>, p: int) -> Result<(AnimationExtensionV, int), DecodeError> {
        sd_extension(b, p)
    }

    fn decode(r: &mut ByteReader) -> (res: Result<AnimationExtension, DecodeError>) {
        let flags = match i32::decode(r) {
            Ok(v) => v,
            Err(e) => {
                return Err(e);
            },
        };
        let heights: Option<HashMap<i32, i8>> = if flags & 0x1 == 0x1 {
            let count = match r.read_u16() {
                Ok(v) => v,
                Err(e) => {
                    return Err(e);
                },
            };
            let pairs = match decode_n::<(i32, i8)>(r, count as usize) {
                Ok(v) => v,
                Err(e) => {
                    return Err(e);
                },
            };
            proof {
                assert(views_of(pairs@) =~= pairs@);
            }
            let mut m: HashMap<i32, i8> = HashMap::new();
            let mut i: usize = 0;
            proof {
                assert(pairs@.take(0) =~= Seq::<(i32, i8)>::empty());
            }
            while i < pairs.len()
                invariant
                    i <= pairs.len(),
                    m@ == heights_map(pairs@.take(i as int)),
                decreases pairs.len() - i,
            {
                let (key, raw) = pairs[i];
                let bumped: i8 = if raw == 127 {
                    -128
                } else {
                    raw + 1
                };
                m.insert(key, bumped);
                proof {
                    assert(pairs@.take(i + 1).drop_last() =~= pairs@.take(i as int));
                    assert(pairs@.take(i + 1).last() == pairs@[i as int]);
                }
                i = i + 1;
            }
            proof {
                assert(pairs@.take(pairs@.len() as int) =~= pairs@);
            }
            Some(m)
        } else {
            None
        };
        let highlight_color = match decode_opt::<Color>(r, flags & 0x2 == 0x2) {
            Ok(v) => v,
            Err(e) => {
                return Err(e);
            },
        };
        proof {
            assert(opt_view(highlight_color) == highlight_color);
        }
        Ok(AnimationExtension { heights, highlight_color })
    }
}

/// An animation index: its flag byte, then the sections the flags gate, then
/// the list of animation files.
pub open spec fn sd_index(b: Seq<u8>, p: int) -> Result<(AnimationIndexV, int), DecodeError> {
    match sd_u8(b, p) {
        Err(e) => Err(e),
        Ok((fl, p1)) => match sd_opt::<u32>(b, p1, fl & 0x1 == 0x1) {
            Err(e) => Err(e),
            Ok((scale_bits, p2)) => match sd_opt::<u32>(b, p2, fl & 0x8 == 0x8) {
                Err(e) => Err(e),
                Ok((render_radius_bits, p3)) => match sd_opt_list_u16::<String>(
                    b,
                    p3,
                    fl & 0x2 == 0x2,
                ) {
                    Err(e) => Err(e),
                    Ok((file_names, p4)) => match sd_opt_list_u8::<HideablePart>(
                        b,
                        p4,
                        fl & 0x4 == 0x4,
                    ) {
                        Err(e) => Err(e),
                        Ok((parts_hidden_by, p5)) => match sd_opt_list_u8::<HiddenPart>(
                            b,
                            p5,
                            fl & 0x40 == 0x40,
                        ) {
                            Err(e) => Err(e),
                            Ok((parts_to_be_hidden, p6)) => match sd_opt::<AnimationExtension>(
                                b,
                                p6,
                                fl & 0x80 == 0x80,
                            ) {
                                Err(e) => Err(e),
                                Ok((extension, p7)) => match sd_prefixed_u16::<AnimationFile>(
                                    b,
                                    p7,
                                ) {
                                    Err(e) => Err(e),
                                    Ok((animation_files, p8)) => Ok(
                                        (
                                            AnimationIndexV {
                                                flags: AnimationFlags(fl),
                                                scale_bits,
                                                render_radius_bits,
                                                file_names,
                                                animation_files,
                                                parts_to_be_hidden,
                                                parts_hidden_by,
                                                extension,
                                            },
                                            p8,
                                        ),
                                    ),
                                },
                            },
                        },
                    },
                },
            },
        },
    }
}

/// An optional `u16`-count-prefixed list gated by `present`.
pub open spec fn sd_opt_list_u16<T: Decode>(b: Seq<u8>, p: int, present: bool) -> Result<
    (Option<Seq<T::V>>, int),
    DecodeError,
> {
    if present {
        match sd_prefixed_u16::<T>(b, p) {
            Ok((v, q)) => Ok((Some(v), q)),
            Err(e) => Err(e),
        }
    } else {
        Ok((None, p))
    }
}

/// An optional `u8`-count-prefixed list gated by `present`.
pub open spec fn sd_opt_list_u8<T: Decode>(b: Seq<u8>, p: int, present: bool) -> Result<
    (Option<Seq<T::V>>, int),
    DecodeError,
> {
    if present {
        match sd_prefixed_u8::<T>(b, p) {
            Ok((v, q)) => Ok((Some(v), q)),
            Err(e) => Err(e),
        }
    } else {
        Ok((None, p))
    }
}

/// Decode an optional `u16`-count-prefixed list gated by `present`.
pub fn decode_opt_list_u16<T: Decode>(r: &mut ByteReader, present: bool) -> (res: Result<
    Option<Vec<T>>,
    DecodeError,
>)
    requires
        old(r).wf(),
    ensures
        final(r).wf(),
        final(r).bytes@ == old(r).bytes@,
        match sd_opt_list_u16::<T>(old(r).bytes@, old(r).pos as int, present) {
            Ok((v, p)) => res matches Ok(x) && opt_views_of(x) == v && final(r).pos == p,
            Err(e) => res matches Err(e2) && e2 == e,
        },
{
    if present {
        match decode_prefixed_u16::<T>(r) {
            Ok(v) => Ok(Some(v)),
            Err(e) => Err(e),
        }
    } else {
        Ok(None)
    }
}

/// Decode an optional `u8`-count-prefixed list gated by `present`.
pub fn decode_opt_list_u8<T: Decode>(r: &mut ByteReader, present: bool) -> (res: Result<
    Option<Vec<T>>,
    DecodeError,
>)
    requires
        old(r).wf(),
    ensures
        final(r).wf(),
        final(r).bytes@ == old(r).bytes@,
        match sd_opt_list_u8::<T>(old(r).bytes@, old(r).pos as int, present) {
            Ok((v, p)) => res matches Ok(x) && opt_views_of(x) == v && final(r).pos == p,
            Err(e) => res matches Err(e2) && e2 == e,
        },
{
    if present {
        match decode_prefixed_u8::<T>(r) {
            Ok(v) => Ok(Some(v)),
            Err(e) => Err(e),
        }
    } else {
        Ok(None)
    }
}

impl Decode for AnimationIndex {
    open spec fn sd(b: Seq<u8>, p: int) -> Result<(AnimationIndexV, int), DecodeError> {
        sd_index(b, p)
    }

    fn decode(r: &mut ByteReader) -> (res: Result<AnimationIndex, DecodeError>) {
        let flags = match AnimationFlags::decode(r) {
            Ok(v) => v,
            Err(e) => {
                return Err(e);
            },
        };
        let scale_bits = match decode_opt::<u32>(r, flags.has_scale()) {
            Ok(v) => v,
            Err(e) => {
                return Err(e);
            },
        };
        let render_radius_bits = match decode_opt::<u32>(r, flags.has_render_radius()) {
            Ok(v) => v,
            Err(e) => {
                return Err(e);
            },
        };
        let file_names = match decode_opt_list_u16::<String>(r, flags.has_extension()) {
            Ok(v) => v,
            Err(e) => {
                return Err(e);
            },
        };
        let parts_hidden_by = match decode_opt_list_u8::<HideablePart>(r, flags.has_hiding_part()) {
            Ok(v) => v,
            Err(e) => {
                return Err(e);
            },
        };
        let parts_to_be_hidden = match decode_opt_list_u8::<HiddenPart>(r, flags.can_hide_part()) {
            Ok(v) => v,
            Err(e) => {
                return Err(e);
            },
        };
        let extension = match decode_opt::<AnimationExtension>(r, flags.is_extended()) {
            Ok(v) => v,
            Err(e) => {
                return Err(e);
            },
        };
        let animation_files = match decode_prefixed_u16::<AnimationFile>(r) {
            Ok(v) => v,
            Err(e) => {
                return Err(e);
            },
        };
        proof {
            assert(opt_view(scale_bits) == scale_bits);
            assert(opt_view(render_radius_bits) == render_radius_bits);
        }
        Ok(
            AnimationIndex {
                flags,
                scale_bits,
                render_radius_bits,
                file_names,
                animation_files,
                parts_to_be_hidden,
                parts_hidden_by,
                extension,
            },
        )
    }
}

/// The id-keyed shape map built from a decoded shape list, in order; a
/// repeated id keeps the last record.
pub open spec fn shapes_by_id(s: Seq<Shape>) -> Map<i16, Shape>
    decreases s.len(),
{
    if s.len() == 0 {
        Map::empty()
    } else {
        shapes_by_id(s.drop_last()).insert(s.last().id, s.last())
    }
}

/// The id-keyed sprite map built from a decoded sprite list, in order; a
/// repeated id keeps the last record.
pub open spec fn sprites_by_id(s: Seq<SpriteV>) -> Map<i16, SpriteV>
    decreases s.len(),
{
    if s.len() == 0 {
        Map::empty()
    } else {
        sprites_by_id(s.drop_last()).insert(s.last().id, s.last())
    }
}

/// A `u16`-count-prefixed shape list, indexed by each shape's own id.
pub open spec fn sd_shape_map(b: Seq<u8>, p: int) -> Result<(Map<i16, Shape>, int), DecodeError> {
    match sd_u16(b, p) {
        Err(e) => Err(e),
        Ok((n, p1)) => match sd_list_of::<Shape>(b, p1, n as nat) {
            Err(e) => Err(e),
            Ok((list, p2)) => Ok((shapes_by_id(list), p2)),
        },
    }
}

/// A `u16`-count-prefixed sprite list, indexed by each sprite's own id.
pub open spec fn sd_sprite_map(b: Seq<u8>, p: int) -> Result<
    (Map<i16, SpriteV>, int),
    DecodeError,
> {
    match sd_u16(b, p) {
        Err(e) => Err(e),
        Ok((n, p1)) => match sd_list_of::<Sprite>(b, p1, n as nat) {
            Err(e) => Err(e),
            Ok((list, p2)) => Ok((sprites_by_id(list), p2)),
        },
    }
}

/// Decode the shape section into its id-keyed map.
fn decode_shape_map(r: &mut ByteReader) -> (res: Result<HashMap<i16, Shape>, DecodeError>)
    requires
        old(r).wf(),
    ensures
        final(r).wf(),
        final(r).bytes@ == old(r).bytes@,
        match sd_shape_map(old(r).bytes@, old(r).pos as int) {
            Ok((m, p)) => res matches Ok(x) && x@ == m && final(r).pos == p,
            Err(e) => res matches Err(e2) && e2 == e,
        },
{
    let n = match r.read_u16() {
        Ok(v) => v,
        Err(e) => {
            return Err(e);
        },
    };
    let shape_list = match decode_n::<Shape>(r, n as usize) {
        Ok(v) => v,
        Err(e) => {
            return Err(e);
        },
    };
    proof {
        assert(views_of(shape_list@) =~= shape_list@);
    }
    let mut shapes: HashMap<i16, Shape> = HashMap::new();
    let mut i: usize = 0;
    proof {
        assert(shape_list@.take(0) =~= Seq::<Shape>::empty());
    }
    while i < shape_list.len()
        invariant
            i <= shape_list.len(),
            shapes@ == shapes_by_id(shape_list@.take(i as int)),
        decreases shape_list.len() - i,
    {
        let sh = shape_list[i];
        shapes.insert(sh.id, sh);
        proof {
            assert(shape_list@.take(i + 1).drop_last() =~= shape_list@.take(i as int));
            assert(shape_list@.take(i + 1).last() == shape_list@[i as int]);
        }
        i = i + 1;
    }
    proof {
        assert(shape_list@.take(shape_list@.len() as int) =~= shape_list@);
    }
    Ok(shapes)
}

/// Decode the sprite section into its id-keyed map.
fn decode_sprite_map(r: &mut ByteReader) -> (res: Result<HashMap<i16, Sprite>, DecodeError>)
    requires
        old(r).wf(),
    ensures
        final(r).wf(),
        final(r).bytes@ == old(r).bytes@,
        match sd_sprite_map(old(r).bytes@, old(r).pos as int) {
            Ok((m, p)) => res matches Ok(x) && sprite_map_view(x@) == m && final(r).pos == p,
            Err(e) => res matches Err(e2) && e2 == e,
        },
{
    let ghost b = old(r).bytes@;
    let n = match r.read_u16() {
        Ok(v) => v,
        Err(e) => {
            return Err(e);
        },
    };
    let ghost pl0 = r.pos as int;
    let mut sprites: HashMap<i16, Sprite> = HashMap::new();
    let ghost mut done: Seq<SpriteV> = Seq::empty();
    let mut i: usize = 0;
    proof {
        assert(sprite_map_view(sprites@) =~= sprites_by_id(done));
    }
    while i < n as usize
        invariant
            b == old(r).bytes@,
            sd_u16(b, old(r).pos as int) == Ok::<(u16, int), DecodeError>((n, pl0)),
            i <= n as usize,
            r.wf(),
            r.bytes@ == b,
            sd_list_of::<Sprite>(b, pl0, n as nat) == (match sd_list_of::<Sprite>(
                b,
                r.pos as int,
                (n - i) as nat,
            ) {
                Ok((s, p)) => Ok::<(Seq<SpriteV>, int), DecodeError>((done + s, p)),
                Err(e) => Err::<(Seq<SpriteV>, int), DecodeError>(e),
            }),
            sprite_map_view(sprites@) == sprites_by_id(done),
        decreases n - i,
    {
        let sp = match Sprite::decode(r) {
            Ok(v) => v,
            Err(e) => {
                return Err(e);
            },
        };
        let ghost done_old = done;
        let ghost mv_old = sprite_map_view(sprites@);
        sprites.insert(sp.id, sp);
        proof {
            done = done.push(sp@);
            assert(forall|s: Seq<SpriteV>| done_old + (seq![sp@] + s) =~= done + s);
            assert(done.drop_last() =~= done_old);
            assert(sprite_map_view(sprites@) =~= mv_old.insert(sp.id, sp@));
        }
        i = i + 1;
    }
    proof {
        assert(done + Seq::<SpriteV>::empty() =~= done);
    }
    Ok(sprites)
}

/// A whole animation record: version flags, frame rate, the sections the
/// version gates, the id-keyed shape and sprite maps, and the imports.
pub open spec fn sd_animation(b: Seq<u8>, p: int) -> Result<(AnimationV, int), DecodeError> {
    match sd_u8(b, p) {
        Err(e) => Err(e),
        Ok((version_raw, p1)) => match sd_i16(b, p1) {
            Err(e) => Err(e),
            Ok((_reserved, p2)) => match sd_u8(b, p2) {
                Err(e) => Err(e),
                Ok((frame_rate, p3)) => match sd_opt::<AnimationIndex>(
                    b,
                    p3,
                    version_raw & 0x2 == 0x2,
                ) {
                    Err(e) => Err(e),
                    Ok((index, p4)) => match sd_u16(b, p4) {
                        Err(e) => Err(e),
                        Ok((texture_count, p5)) => match sd_opt::<Texture>(
                            b,
                            p5,
                            texture_count == 1,
                        ) {
                            Err(e) => Err(e),
                            Ok((texture, p6)) => match sd_shape_map(b, p6) {
                                Err(e) => Err(e),
                                Ok((shapes, p7)) => match sd_opt::<TransformTable>(
                                    b,
                                    p7,
                                    version_raw & 0x10 == 0x10,
                                ) {
                                    Err(e) => Err(e),
                                    Ok((transform, p8)) => match sd_sprite_map(b, p8) {
                                        Err(e) => Err(e),
                                        Ok((sprites, p9)) => match sd_prefixed_u16::<Import>(
                                            b,
                                            p9,
                                        ) {
                                            Err(e) => Err(e),
                                            Ok((imports, p10)) => Ok(
                                                (
                                                    AnimationV {
                                                        version: AnimationVersion(version_raw),
                                                        frame_rate,
                                                        index,
                                                        texture,
                                                        shapes,
                                                        transform,
                                                        sprites,
                                                        imports,
                                                    },
                                                    p10,
                                                ),
                                            ),
                                        },
                                    },
                                },
                            },
                        },
                    },
                },
            },
        },
    }
}

impl Decode for Animation {
    open spec fn sd(b: Seq<u8>, p: int) -> Result<(AnimationV, int), DecodeError> {
        sd_animation(b, p)
    }

    fn decode(r: &mut ByteReader) -> (res: Result<Animation, DecodeError>) {
        let version = match AnimationVersion::decode(r) {
            Ok(v) => v,
            Err(e) => {
                return Err(e);
            },
        };
        match r.read_u16() {
            Ok(_) => {},
            Err(e) => {
                return Err(e);
            },
        };
        let frame_rate = match r.read_u8() {
            Ok(v) => v,
            Err(e) => {
                return Err(e);
            },
        };
        let index = match decode_opt::<AnimationIndex>(r, version.use_local_index()) {
            Ok(v) => v,
            Err(e) => {
                return Err(e);
            },
        };
        let texture_count = match r.read_u16() {
            Ok(v) => v,
            Err(e) => {
                return Err(e);
            },
        };
        let texture = match decode_opt::<Texture>(r, texture_count == 1) {
            Ok(v) => v,
            Err(e) => {
                return Err(e);
            },
        };
        let shapes = match decode_shape_map(r) {
            Ok(v) => v,
            Err(e) => {
                return Err(e);
            },
        };
        let transform = match decode_opt::<TransformTable>(r, version.use_transform_index()) {
            Ok(v) => v,
            Err(e) => {
                return Err(e);
            },
        };
        let sprites = match decode_sprite_map(r) {
            Ok(v) => v,
            Err(e) => {
                return Err(e);
            },
        };
        let imports = match decode_prefixed_u16::<Import>(r) {
            Ok(v) => v,
            Err(e) => {
                return Err(e);
            },
        };
        Ok(Animation { version, frame_rate, index, texture, shapes, transform, sprites, imports })
    }
}

impl Animation {
    /// Decode one animation record from the start of `bytes`; trailing bytes
    /// after the record are ignored.
    pub fn from_bytes(bytes: &[u8]) -> (res: Result<Animation, DecodeError>)
        ensures
            match sd_animation(bytes@, 0) {
                Ok((v, p)) => res matches Ok(a) && a@ == v,
                Err(e) => res matches Err(e2) && e2 == e,
            },
    {
        let mut r = ByteReader::new(bytes);
        Animation::decode(&mut r)
    }
}

} // verus!
