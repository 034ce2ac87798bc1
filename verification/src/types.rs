//! The decoded animation data model.
//!
//! Scalars that the container stores as IEEE-754 single-precision floats are
//! held as their raw little-endian bit patterns (`u32` fields whose names end
//! in `_bits`); the atlas UV edges are held as the raw `u16` numerators of a
//! fraction over 65535.

use std::collections::HashMap;
use vstd::prelude::*;

verus! {

/// Spec view of an `Option` whose payload has a view of its own.
pub open spec fn opt_view<T: View>(o: Option<T>) -> Option<T::V> {
    match o {
        Some(t) => Some(t@),
        None => None,
    }
}

/// Spec views of a sequence of values, element by element.
pub open spec fn views_of<T: View>(s: Seq<T>) -> Seq<T::V> {
    s.map_values(|t: T| t@)
}

/// Spec view of a `Vec<String>` as a sequence of character sequences.
pub open spec fn strings_view(v: Seq<String>) -> Seq<Seq<char>> {
    views_of(v)
}

/// Spec view of an optional list whose elements have views of their own.
pub open spec fn opt_views_of<T: View>(o: Option<Vec<T>>) -> Option<Seq<T::V>> {
    match o {
        Some(v) => Some(views_of(v@)),
        None => None,
    }
}

/// Spec view of an id-keyed sprite map, value by value.
pub open spec fn sprite_map_view(m: Map<i16, Sprite>) -> Map<i16, SpriteV> {
    m.map_values(|s: Sprite| s@)
}

/// Version byte of an animation record: a set of bitflags that gate the
/// optional sections of the container.
#[derive(Debug, Clone, Copy, PartialEq, Eq, Structural)]
pub struct AnimationVersion(pub u8);

impl View for AnimationVersion {
    type V = AnimationVersion;

    open spec fn view(&self) -> AnimationVersion {
        *self
    }
}

impl AnimationVersion {
    pub fn use_atlas(&self) -> (r: bool)
        ensures
            r == (self.0 & 0x1 == 0x1),
    {
        self.0 & 0x1 == 0x1
    }

    pub fn use_local_index(&self) -> (r: bool)
        ensures
            r == (self.0 & 0x2 == 0x2),
    {
        self.0 & 0x2 == 0x2
    }

    pub fn use_perfect_hit_test(&self) -> (r: bool)
        ensures
            r == (self.0 & 0x4 == 0x4),
    {
        self.0 & 0x4 == 0x4
    }

    pub fn is_optimized(&self) -> (r: bool)
        ensures
            r == (self.0 & 0x8 == 0x8),
    {
        self.0 & 0x8 == 0x8
    }

    pub fn use_transform_index(&self) -> (r: bool)
        ensures
            r == (self.0 & 0x10 == 0x10),
    {
        self.0 & 0x10 == 0x10
    }
}

/// Flag byte of an animation index: gates the optional index sections.
#[derive(Debug, Clone, Copy, PartialEq, Eq, Structural)]
pub struct AnimationFlags(pub u8);

impl View for AnimationFlags {
    type V = AnimationFlags;

    open spec fn view(&self) -> AnimationFlags {
        *self
    }
}

impl AnimationFlags {
    pub fn has_scale(&self) -> (r: bool)
        ensures
            r == (self.0 & 0x1 == 0x1),
    {
        self.0 & 0x1 == 0x1
    }

    pub fn has_extension(&self) -> (r: bool)
        ensures
            r == (self.0 & 0x2 == 0x2),
    {
        self.0 & 0x2 == 0x2
    }

    pub fn has_hiding_part(&self) -> (r: bool)
        ensures
            r == (self.0 & 0x4 == 0x4),
    {
        self.0 & 0x4 == 0x4
    }

    pub fn has_render_radius(&self) -> (r: bool)
        ensures
            r == (self.0 & 0x8 == 0x8),
    {
        self.0 & 0x8 == 0x8
    }

    pub fn use_flip(&self) -> (r: bool)
        ensures
            r == (self.0 & 0x10 == 0x10),
    {
        self.0 & 0x10 == 0x10
    }

    pub fn use_perfect_hit_test(&self) -> (r: bool)
        ensures
            r == (self.0 & 0x20 == 0x20),
    {
        self.0 & 0x20 == 0x20
    }

    pub fn can_hide_part(&self) -> (r: bool)
        ensures
            r == (self.0 & 0x40 == 0x40),
    {
        self.0 & 0x40 == 0x40
    }

    pub fn is_extended(&self) -> (r: bool)
        ensures
            r == (self.0 & 0x80 == 0x80),
    {
        self.0 & 0x80 == 0x80
    }
}

/// Flag byte of a sprite record.
#[derive(Debug, Clone, Copy, PartialEq, Eq, Structural)]
pub struct SpriteFlags(pub u8);

impl View for SpriteFlags {
    type V = SpriteFlags;

    open spec fn view(&self) -> SpriteFlags {
        *self
    }
}

impl SpriteFlags {
    /// The sprite record carries an inline display name.
    pub fn has_name(&self) -> (r: bool)
        ensures
            r == (self.0 & 0x40 == 0x40),
    {
        self.0 & 0x40 == 0x40
    }
}

/// Terminal drawable: a rectangular region of the texture atlas.
///
/// `top`, `left`, `bottom` and `right` are the raw `u16` numerators of the
/// normalized UV edges (the edge value is the field divided by 65535).
/// `offset_x_bits` and `offset_y_bits` are the bit patterns of the stored
/// single-precision local offset.
#[derive(Debug, Clone, Copy, PartialEq, Eq, Structural)]
pub struct Shape {
    pub id: i16,
    pub texture_index: i16,
    pub top: u16,
    pub left: u16,
    pub bottom: u16,
    pub right: u16,
    pub width: i16,
    pub height: i16,
    pub offset_x_bits: u32,
    pub offset_y_bits: u32,
}

impl View for Shape {
    type V = Shape;

    open spec fn view(&self) -> Shape {
        *self
    }
}

/// Bit pattern of the single-precision value one, used for the implied alpha
/// channel of a decoded color.
pub const UNIT_ALPHA_BITS: u32 = 0x3F800000;

/// An RGBA color; each channel is the bit pattern of the stored
/// single-precision value.
#[derive(Debug, Clone, Copy, PartialEq, Eq, Structural)]
pub struct Color {
    pub red_bits: u32,
    pub green_bits: u32,
    pub blue_bits: u32,
    pub alpha_bits: u32,
}

impl View for Color {
    type V = Color;

    open spec fn view(&self) -> Color {
        *self
    }
}

/// A reference to a part that is hidden while another part (named by CRC) is
/// shown.
#[derive(Debug, Clone, Copy, PartialEq, Eq, Structural)]
pub struct HideablePart {
    pub crc_key: i32,
    pub crc_to_hide: i32,
}

impl View for HideablePart {
    type V = HideablePart;

    open spec fn view(&self) -> HideablePart {
        *self
    }
}

/// A named part that this animation hides.
#[derive(Debug, Clone, PartialEq)]
pub struct HiddenPart {
    pub item_name: String,
    pub crc_key: i32,
}

/// Spec view of [`HiddenPart`].
pub struct HiddenPartV {
    pub item_name: Seq<char>,
    pub crc_key: i32,
}

impl View for HiddenPart {
    type V = HiddenPartV;

    open spec fn view(&self) -> HiddenPartV {
        HiddenPartV { item_name: self.item_name@, crc_key: self.crc_key }
    }
}

/// A named animation file listed in the local index.
#[derive(Debug, Clone, PartialEq)]
pub struct AnimationFile {
    pub name: String,
    pub crc: i32,
    pub file_index: i16,
}

/// Spec view of [`AnimationFile`].
pub struct AnimationFileV {
    pub name: Seq<char>,
    pub crc: i32,
    pub file_index: i16,
}

impl View for AnimationFile {
    type V = AnimationFileV;

    open spec fn view(&self) -> AnimationFileV {
        AnimationFileV { name: self.name@, crc: self.crc, file_index: self.file_index }
    }
}

/// An external reference that this animation imports; resolved by the caller.
#[derive(Debug, Clone, PartialEq)]
pub struct Import {
    pub id: i16,
    pub name: String,
    pub crc: i32,
}

/// Spec view of [`Import`].
pub struct ImportV {
    pub id: i16,
    pub name: Seq<char>,
    pub crc: i32,
}

impl View for Import {
    type V = ImportV;

    open spec fn view(&self) -> ImportV {
        ImportV { id: self.id, name: self.name@, crc: self.crc }
    }
}

/// The single texture reference of an animation record.
#[derive(Debug, Clone, PartialEq)]
pub struct Texture {
    pub name: String,
    pub crc: i32,
}

/// Spec view of [`Texture`].
pub struct TextureV {
    pub name: Seq<char>,
    pub crc: i32,
}

impl View for Texture {
    type V = TextureV;

    open spec fn view(&self) -> TextureV {
        TextureV { name: self.name@, crc: self.crc }
    }
}

/// Optional display name and CRC identifiers of a sprite.
#[derive(Debug, Clone, PartialEq)]
pub struct SpriteName {
    pub name: Option<String>,
    pub name_crc: i32,
    pub base_name_crc: i32,
}

/// Spec view of [`SpriteName`].
pub struct SpriteNameV {
    pub name: Option<Seq<char>>,
    pub name_crc: i32,
    pub base_name_crc: i32,
}

impl View for SpriteName {
    type V = SpriteNameV;

    open spec fn view(&self) -> SpriteNameV {
        SpriteNameV {
            name: opt_view(self.name),
            name_crc: self.name_crc,
            base_name_crc: self.base_name_crc,
        }
    }
}

/// A playback directive attached to a tape position; carried through for a
/// caller-supplied state machine, never interpreted here.
#[derive(Debug, Clone, PartialEq)]
pub enum Action {
    AddParticle(i32, Option<i16>, Option<i16>, Option<i16>),
    Delete,
    End,
    GoTo(String, Option<u8>),
    GoToIfPrevious(Vec<String>, Vec<String>, Option<String>),
    GoToRandom(Vec<String>, Vec<u8>),
    GoToStatic,
    Hit,
    RunScript(String),
    SetRadius(i8),
}

/// Spec view of [`Action`].
pub enum ActionV {
    AddParticle(i32, Option<i16>, Option<i16>, Option<i16>),
    Delete,
    End,
    GoTo(Seq<char>, Option<u8>),
    GoToIfPrevious(Seq<Seq<char>>, Seq<Seq<char>>, Option<Seq<char>>),
    GoToRandom(Seq<Seq<char>>, Seq<u8>),
    GoToStatic,
    Hit,
    RunScript(Seq<char>),
    SetRadius(i8),
}

impl View for Action {
    type V = ActionV;

    open spec fn view(&self) -> ActionV {
        match self {
            Action::AddParticle(id, x, y, z) => ActionV::AddParticle(*id, *x, *y, *z),
            Action::Delete => ActionV::Delete,
            Action::End => ActionV::End,
            Action::GoTo(name, percent) => ActionV::GoTo(name@, *percent),
            Action::GoToIfPrevious(previous, next, default) => ActionV::GoToIfPrevious(
                strings_view(previous@),
                strings_view(next@),
                opt_view(*default),
            ),
            Action::GoToRandom(names, percents) => ActionV::GoToRandom(
                strings_view(names@),
                percents@,
            ),
            Action::GoToStatic => ActionV::GoToStatic,
            Action::Hit => ActionV::Hit,
            Action::RunScript(script) => ActionV::RunScript(script@),
            Action::SetRadius(radius) => ActionV::SetRadius(*radius),
        }
    }
}

/// The raw per-sprite frame tape; element width is chosen per record.
#[derive(Debug, Clone, PartialEq)]
pub enum FrameData {
    Bytes(Vec<u8>),
    Shorts(Vec<u16>),
    Ints(Vec<u32>),
}

/// Spec view of [`FrameData`].
pub enum FrameDataV {
    Bytes(Seq<u8>),
    Shorts(Seq<u16>),
    Ints(Seq<u32>),
}

impl View for FrameData {
    type V = FrameDataV;

    open spec fn view(&self) -> FrameDataV {
        match self {
            FrameData::Bytes(v) => FrameDataV::Bytes(v@),
            FrameData::Shorts(v) => FrameDataV::Shorts(v@),
            FrameData::Ints(v) => FrameDataV::Ints(v@),
        }
    }
}

/// The payload of a sprite record: which children it renders per frame.
#[derive(Debug, Clone, PartialEq)]
pub enum SpritePayload {
    /// frame positions, child ids and counts, action ids
    Indexed(Vec<i32>, Vec<i16>, Vec<i16>),
    /// child ids, action ids
    SingleFrame(Vec<i16>, Vec<i16>),
    /// child id, action ids
    Single(i16, Vec<i16>),
    /// child id
    SingleNoAction(i16),
}

/// Spec view of [`SpritePayload`].
pub enum SpritePayloadV {
    Indexed(Seq<i32>, Seq<i16>, Seq<i16>),
    SingleFrame(Seq<i16>, Seq<i16>),
    Single(i16, Seq<i16>),
    SingleNoAction(i16),
}

impl View for SpritePayload {
    type V = SpritePayloadV;

    open spec fn view(&self) -> SpritePayloadV {
        match self {
            SpritePayload::Indexed(frame_pos, sprite_info, action_info) => SpritePayloadV::Indexed(
                frame_pos@,
                sprite_info@,
                action_info@,
            ),
            SpritePayload::SingleFrame(ids, action_info) => SpritePayloadV::SingleFrame(
                ids@,
                action_info@,
            ),
            SpritePayload::Single(id, action_info) => SpritePayloadV::Single(*id, action_info@),
            SpritePayload::SingleNoAction(id) => SpritePayloadV::SingleNoAction(*id),
        }
    }
}

/// Number of frames a payload selects between: derived from the stride of an
/// `Indexed` payload; every other payload has exactly one frame.
pub open spec fn spec_frame_count(p: SpritePayloadV) -> nat {
    match p {
        SpritePayloadV::Indexed(frame_pos, _, action_info) => {
            let divisor: nat = if action_info.len() == 0 { 2 } else { 3 };
            frame_pos.len() / divisor
        },
        _ => 1,
    }
}

/// A composite node of the sprite tree.
#[derive(Debug, Clone, PartialEq)]
pub struct Sprite {
    pub id: i16,
    pub name: SpriteName,
    pub flags: SpriteFlags,
    pub frame_data: FrameData,
    pub payload: SpritePayload,
}

/// Spec view of [`Sprite`].
pub struct SpriteV {
    pub id: i16,
    pub name: SpriteNameV,
    pub flags: SpriteFlags,
    pub frame_data: FrameDataV,
    pub payload: SpritePayloadV,
}

impl View for Sprite {
    type V = SpriteV;

    open spec fn view(&self) -> SpriteV {
        SpriteV {
            id: self.id,
            name: self.name@,
            flags: self.flags,
            frame_data: self.frame_data@,
            payload: self.payload@,
        }
    }
}

impl Sprite {
    /// Number of frames this sprite cycles through.
    pub fn frame_count(&self) -> (r: usize)
        ensures
            r == spec_frame_count(self@.payload),
    {
        match &self.payload {
            SpritePayload::Indexed(frame_pos, _, action_info) => {
                let divisor: usize = if action_info.len() == 0 { 2 } else { 3 };
                frame_pos.len() / divisor
            },
            _ => 1,
        }
    }
}

/// The four shared numeric pools that tape instructions index into. Color,
/// rotation and translation entries are bit patterns of the stored
/// single-precision values.
#[derive(Debug, Clone, PartialEq)]
pub struct TransformTable {
    pub colors: Vec<u32>,
    pub rotations: Vec<u32>,
    pub translations: Vec<u32>,
    pub actions: Vec<Action>,
}

/// Spec view of [`TransformTable`].
pub struct TransformTableV {
    pub colors: Seq<u32>,
    pub rotations: Seq<u32>,
    pub translations: Seq<u32>,
    pub actions: Seq<ActionV>,
}

impl View for TransformTable {
    type V = TransformTableV;

    open spec fn view(&self) -> TransformTableV {
        TransformTableV {
            colors: self.colors@,
            rotations: self.rotations@,
            translations: self.translations@,
            actions: views_of(self.actions@),
        }
    }
}

/// The spec value of a transform table with four empty pools.
pub open spec fn empty_table_view() -> TransformTableV {
    TransformTableV {
        colors: Seq::empty(),
        rotations: Seq::empty(),
        translations: Seq::empty(),
        actions: Seq::empty(),
    }
}

impl TransformTable {
    /// A table with four empty pools; stands in when a record has none.
    pub fn empty() -> (r: TransformTable)
        ensures
            r@ == empty_table_view(),
    {
        let r = TransformTable {
            colors: Vec::new(),
            rotations: Vec::new(),
            translations: Vec::new(),
            actions: Vec::new(),
        };
        proof {
            assert(r@.actions =~= empty_table_view().actions);
            assert(r@ =~= empty_table_view());
        }
        r
    }
}

/// Optional per-animation extension data carried by the local index.
#[derive(Debug, Clone, PartialEq)]
pub struct AnimationExtension {
    pub heights: Option<HashMap<i32, i8>>,
    pub highlight_color: Option<Color>,
}

/// Spec view of [`AnimationExtension`].
pub struct AnimationExtensionV {
    pub heights: Option<Map<i32, i8>>,
    pub highlight_color: Option<Color>,
}

impl View for AnimationExtension {
    type V = AnimationExtensionV;

    open spec fn view(&self) -> AnimationExtensionV {
        AnimationExtensionV {
            heights: match self.heights {
                Some(m) => Some(m@),
                None => None,
            },
            highlight_color: self.highlight_color,
        }
    }
}

/// Index metadata of an animation record, present when the version flags say
/// so. `scale_bits` and `render_radius_bits` carry the stored
/// single-precision values as bit patterns.
#[derive(Debug, Clone, PartialEq)]
pub struct AnimationIndex {
    pub flags: AnimationFlags,
    pub scale_bits: Option<u32>,
    pub render_radius_bits: Option<u32>,
    pub file_names: Option<Vec<String>>,
    pub animation_files: Vec<AnimationFile>,
    pub parts_to_be_hidden: Option<Vec<HiddenPart>>,
    pub parts_hidden_by: Option<Vec<HideablePart>>,
    pub extension: Option<AnimationExtension>,
}

/// Spec view of [`AnimationIndex`].
pub struct AnimationIndexV {
    pub flags: AnimationFlags,
    pub scale_bits: Option<u32>,
    pub render_radius_bits: Option<u32>,
    pub file_names: Option<Seq<Seq<char>>>,
    pub animation_files: Seq<AnimationFileV>,
    pub parts_to_be_hidden: Option<Seq<HiddenPartV>>,
    pub parts_hidden_by: Option<Seq<HideablePart>>,
    pub extension: Option<AnimationExtensionV>,
}

impl View for AnimationIndex {
    type V = AnimationIndexV;

    open spec fn view(&self) -> AnimationIndexV {
        AnimationIndexV {
            flags: self.flags,
            scale_bits: self.scale_bits,
            render_radius_bits: self.render_radius_bits,
            file_names: opt_views_of(self.file_names),
            animation_files: views_of(self.animation_files@),
            parts_to_be_hidden: opt_views_of(self.parts_to_be_hidden),
            parts_hidden_by: opt_views_of(self.parts_hidden_by),
            extension: opt_view(self.extension),
        }
    }
}

/// The root of a decoded animation record. Immutable after decode.
#[derive(Debug, Clone)]
pub struct Animation {
    pub version: AnimationVersion,
    pub frame_rate: u8,
    pub index: Option<AnimationIndex>,
    pub texture: Option<Texture>,
    pub shapes: HashMap<i16, Shape>,
    pub transform: Option<TransformTable>,
    pub sprites: HashMap<i16, Sprite>,
    pub imports: Vec<Import>,
}

/// Spec view of [`Animation`].
pub struct AnimationV {
    pub version: AnimationVersion,
    pub frame_rate: u8,
    pub index: Option<AnimationIndexV>,
    pub texture: Option<TextureV>,
    pub shapes: Map<i16, Shape>,
    pub transform: Option<TransformTableV>,
    pub sprites: Map<i16, SpriteV>,
    pub imports: Seq<ImportV>,
}

impl View for Animation {
    type V = AnimationV;

    open spec fn view(&self) -> AnimationV {
        AnimationV {
            version: self.version,
            frame_rate: self.frame_rate,
            index: opt_view(self.index),
            texture: opt_view(self.texture),
            shapes: self.shapes@,
            transform: opt_view(self.transform),
            sprites: sprite_map_view(self.sprites@),
            imports: views_of(self.imports@),
        }
    }
}

} // verus!
