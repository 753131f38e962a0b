//! Display attribute styles: the two fixed style identities (Input and
//! Converted), their default style records, and the fixed-size binary record
//! format in which a per-identity override may be persisted by an external
//! store.  An override is honoured only when it is structurally valid (the
//! exact record size); anything else falls back to the compiled-in default.

use vstd::prelude::*;
use crate::context::EditContext;
use crate::globals::GUID_DISPLAY_ATTRIBUTE_CONVERTED;
use crate::globals::GUID_DISPLAY_ATTRIBUTE_INPUT;
use crate::service::TextService;

verus! {

/// Colour kind: the host applies no colour for this slot.
pub const TF_CT_NONE: u32 = 0;

/// Colour kind: the value names a system colour index.
pub const TF_CT_SYSCOLOR: u32 = 1;

/// Colour kind: the value is a packed red/green/blue colour.
pub const TF_CT_COLORREF: u32 = 2;

/// Underline style: none.
pub const TF_LS_NONE: u32 = 0;

/// Underline style: solid line.
pub const TF_LS_SOLID: u32 = 1;

/// Attribute kind tag: freshly typed input text.
pub const TF_ATTR_INPUT: u32 = 0;

/// Attribute kind tag: text converted to its target form.
pub const TF_ATTR_TARGET_CONVERTED: u32 = 1;

/// Size in bytes of the persisted binary style record.
pub const ATTRIBUTE_RECORD_SIZE: usize = 36;

/// Packs red, green and blue components into one colour value, red in the
/// lowest byte.
pub fn rgb(r: u8, g: u8, b: u8) -> (c: u32)
    ensures
        c == (r as u32) | ((g as u32) << 8) | ((b as u32) << 16),
        c == r + (g as u32) * 0x100 + (b as u32) * 0x10000,
{
    let c = (r as u32) | ((g as u32) << 8) | ((b as u32) << 16);
    proof {
        assert(c == r + (g as u32) * 0x100 + (b as u32) * 0x10000) by (bit_vector)
            requires
                c == (r as u32) | ((g as u32) << 8) | ((b as u32) << 16),
        ;
    }
    c
}

/// One colour slot of a style record: a kind tag and a value interpreted
/// according to the kind.
#[derive(Clone, Copy, PartialEq, Eq, Structural, Debug)]
pub struct DaColor {
    pub color_type: u32,
    pub color_value: u32,
}

/// A display attribute style record: text colour, background colour,
/// underline style and boldness, underline colour, and the attribute kind
/// tag.
#[derive(Clone, Copy, PartialEq, Eq, Structural, Debug)]
pub struct DisplayAttribute {
    pub text_color: DaColor,
    pub back_color: DaColor,
    pub line_style: u32,
    pub bold_line: u32,
    pub line_color: DaColor,
    pub attr_kind: u32,
}

/// The compiled-in style for the Input identity: red text with a solid red
/// underline, background left to the application.
pub open spec fn spec_input_attribute() -> DisplayAttribute {
    DisplayAttribute {
        text_color: DaColor { color_type: TF_CT_COLORREF, color_value: 0x0000ff },
        back_color: DaColor { color_type: TF_CT_NONE, color_value: 0 },
        line_style: TF_LS_SOLID,
        bold_line: 0,
        line_color: DaColor { color_type: TF_CT_COLORREF, color_value: 0x0000ff },
        attr_kind: TF_ATTR_INPUT,
    }
}

/// The compiled-in style for the Converted identity: white text on a cyan
/// background, no underline.
pub open spec fn spec_converted_attribute() -> DisplayAttribute {
    DisplayAttribute {
        text_color: DaColor { color_type: TF_CT_COLORREF, color_value: 0xffffff },
        back_color: DaColor { color_type: TF_CT_COLORREF, color_value: 0xffff00 },
        line_style: TF_LS_NONE,
        bold_line: 0,
        line_color: DaColor { color_type: TF_CT_NONE, color_value: 0 },
        attr_kind: TF_ATTR_TARGET_CONVERTED,
    }
}

/// Builds the compiled-in Input style record.
pub fn default_input_attribute() -> (r: DisplayAttribute)
    ensures
        r == spec_input_attribute(),
{
    let red = rgb(255, 0, 0);
    DisplayAttribute {
        text_color: DaColor { color_type: TF_CT_COLORREF, color_value: red },
        back_color: DaColor { color_type: TF_CT_NONE, color_value: 0 },
        line_style: TF_LS_SOLID,
        bold_line: 0,
        line_color: DaColor { color_type: TF_CT_COLORREF, color_value: red },
        attr_kind: TF_ATTR_INPUT,
    }
}

/// Builds the compiled-in Converted style record.
pub fn default_converted_attribute() -> (r: DisplayAttribute)
    ensures
        r == spec_converted_attribute(),
{
    DisplayAttribute {
        text_color: DaColor { color_type: TF_CT_COLORREF, color_value: rgb(255, 255, 255) },
        back_color: DaColor { color_type: TF_CT_COLORREF, color_value: rgb(0, 255, 255) },
        line_style: TF_LS_NONE,
        bold_line: 0,
        line_color: DaColor { color_type: TF_CT_NONE, color_value: 0 },
        attr_kind: TF_ATTR_TARGET_CONVERTED,
    }
}

/// The four little-endian bytes of a 32-bit value.
pub open spec fn u32_le_bytes(x: u32) -> Seq<u8> {
    seq![
        (x & 0xff) as u8,
        ((x >> 8) & 0xff) as u8,
        ((x >> 16) & 0xff) as u8,
        ((x >> 24) & 0xff) as u8,
    ]
}

/// The 32-bit value read little-endian from four bytes starting at `i`.
pub open spec fn le_u32_at(b: Seq<u8>, i: int) -> u32 {
    (b[i] as u32) | ((b[i + 1] as u32) << 8) | ((b[i + 2] as u32) << 16) | ((b[i + 3] as u32)
        << 24)
}

/// The binary form of a style record: its nine 32-bit fields, each
/// little-endian, in declaration order.
pub open spec fn spec_encode_attribute(a: DisplayAttribute) -> Seq<u8> {
    u32_le_bytes(a.text_color.color_type) + u32_le_bytes(a.text_color.color_value) + u32_le_bytes(
        a.back_color.color_type,
    ) + u32_le_bytes(a.back_color.color_value) + u32_le_bytes(a.line_style) + u32_le_bytes(
        a.bold_line,
    ) + u32_le_bytes(a.line_color.color_type) + u32_le_bytes(a.line_color.color_value)
        + u32_le_bytes(a.attr_kind)
}

/// The style record denoted by 36 bytes in the binary form.
pub open spec fn spec_decode_attribute(b: Seq<u8>) -> DisplayAttribute {
    DisplayAttribute {
        text_color: DaColor { color_type: le_u32_at(b, 0), color_value: le_u32_at(b, 4) },
        back_color: DaColor { color_type: le_u32_at(b, 8), color_value: le_u32_at(b, 12) },
        line_style: le_u32_at(b, 16),
        bold_line: le_u32_at(b, 20),
        line_color: DaColor { color_type: le_u32_at(b, 24), color_value: le_u32_at(b, 28) },
        attr_kind: le_u32_at(b, 32),
    }
}

fn push_u32_le(out: &mut Vec<u8>, x: u32)
    ensures
        final(out)@ == old(out)@ + u32_le_bytes(x),
{
    out.push((x & 0xff) as u8);
    out.push(((x >> 8) & 0xff) as u8);
    out.push(((x >> 16) & 0xff) as u8);
    out.push(((x >> 24) & 0xff) as u8);
    proof {
        assert(out@ =~= old(out)@ + u32_le_bytes(x));
    }
}

fn read_u32_le(bytes: &Vec<u8>, i: usize) -> (x: u32)
    requires
        i + 4 <= bytes@.len(),
    ensures
        x == le_u32_at(bytes@, i as int),
{
    let n: usize = bytes.len();
    proof {
        assert(i + 4 <= n);
    }
    (bytes[i] as u32) | ((bytes[i + 1] as u32) << 8) | ((bytes[i + 2] as u32) << 16) | ((bytes[i
        + 3] as u32) << 24)
}

/// Serializes a style record into its persisted binary form.
pub fn encode_display_attribute(attr: &DisplayAttribute) -> (r: Vec<u8>)
    ensures
        r@ == spec_encode_attribute(*attr),
        r@.len() == ATTRIBUTE_RECORD_SIZE,
{
    let mut out: Vec<u8> = Vec::new();
    push_u32_le(&mut out, attr.text_color.color_type);
    push_u32_le(&mut out, attr.text_color.color_value);
    push_u32_le(&mut out, attr.back_color.color_type);
    push_u32_le(&mut out, attr.back_color.color_value);
    push_u32_le(&mut out, attr.line_style);
    push_u32_le(&mut out, attr.bold_line);
    push_u32_le(&mut out, attr.line_color.color_type);
    push_u32_le(&mut out, attr.line_color.color_value);
    push_u32_le(&mut out, attr.attr_kind);
    proof {
        assert(out@ =~= spec_encode_attribute(*attr));
    }
    out
}

/// Parses a persisted binary record.  Exactly the records of the right size
/// are accepted; anything else is structurally invalid.
pub fn decode_display_attribute(bytes: &Vec<u8>) -> (r: Option<DisplayAttribute>)
    ensures
        r is Some <==> bytes@.len() == ATTRIBUTE_RECORD_SIZE,
        r matches Some(a) ==> a == spec_decode_attribute(bytes@),
{
    if bytes.len() != ATTRIBUTE_RECORD_SIZE {
        return None;
    }
    Some(
        DisplayAttribute {
            text_color: DaColor {
                color_type: read_u32_le(bytes, 0),
                color_value: read_u32_le(bytes, 4),
            },
            back_color: DaColor {
                color_type: read_u32_le(bytes, 8),
                color_value: read_u32_le(bytes, 12),
            },
            line_style: read_u32_le(bytes, 16),
            bold_line: read_u32_le(bytes, 20),
            line_color: DaColor {
                color_type: read_u32_le(bytes, 24),
                color_value: read_u32_le(bytes, 28),
            },
            attr_kind: read_u32_le(bytes, 32),
        },
    )
}

/// Reading back the four little-endian bytes of a value yields the value.
pub proof fn lemma_u32_le_round_trip(x: u32)
    ensures
        le_u32_at(u32_le_bytes(x), 0) == x,
{
    let b0: u8 = (x & 0xff) as u8;
    let b1: u8 = ((x >> 8) & 0xff) as u8;
    let b2: u8 = ((x >> 16) & 0xff) as u8;
    let b3: u8 = ((x >> 24) & 0xff) as u8;
    assert((b0 as u32) | ((b1 as u32) << 8) | ((b2 as u32) << 16) | ((b3 as u32) << 24)
        == x) by (bit_vector)
        requires
            b0 == (x & 0xff) as u8,
            b1 == ((x >> 8) & 0xff) as u8,
            b2 == ((x >> 16) & 0xff) as u8,
            b3 == ((x >> 24) & 0xff) as u8,
    ;
}

/// Decoding an encoded style record yields the record back: the persisted
/// form loses nothing.
pub proof fn lemma_attribute_record_round_trip(a: DisplayAttribute)
    ensures
        spec_encode_attribute(a).len() == ATTRIBUTE_RECORD_SIZE,
        spec_decode_attribute(spec_encode_attribute(a)) == a,
{
    let enc = spec_encode_attribute(a);
    lemma_u32_le_round_trip(a.text_color.color_type);
    lemma_u32_le_round_trip(a.text_color.color_value);
    lemma_u32_le_round_trip(a.back_color.color_type);
    lemma_u32_le_round_trip(a.back_color.color_value);
    lemma_u32_le_round_trip(a.line_style);
    lemma_u32_le_round_trip(a.bold_line);
    lemma_u32_le_round_trip(a.line_color.color_type);
    lemma_u32_le_round_trip(a.line_color.color_value);
    lemma_u32_le_round_trip(a.attr_kind);
    assert(le_u32_at(enc, 0) == le_u32_at(u32_le_bytes(a.text_color.color_type), 0));
    assert(le_u32_at(enc, 4) == le_u32_at(u32_le_bytes(a.text_color.color_value), 0));
    assert(le_u32_at(enc, 8) == le_u32_at(u32_le_bytes(a.back_color.color_type), 0));
    assert(le_u32_at(enc, 12) == le_u32_at(u32_le_bytes(a.back_color.color_value), 0));
    assert(le_u32_at(enc, 16) == le_u32_at(u32_le_bytes(a.line_style), 0));
    assert(le_u32_at(enc, 20) == le_u32_at(u32_le_bytes(a.bold_line), 0));
    assert(le_u32_at(enc, 24) == le_u32_at(u32_le_bytes(a.line_color.color_type), 0));
    assert(le_u32_at(enc, 28) == le_u32_at(u32_le_bytes(a.line_color.color_value), 0));
    assert(le_u32_at(enc, 32) == le_u32_at(u32_le_bytes(a.attr_kind), 0));
}

/// The effective style for an identity: a structurally valid persisted
/// override wins, anything else falls back to the given default.
pub fn effective_attribute(persisted: Option<&Vec<u8>>, default: &DisplayAttribute) -> (r:
    DisplayAttribute)
    ensures
        (match persisted {
            Some(bytes) if bytes@.len() == ATTRIBUTE_RECORD_SIZE => r == spec_decode_attribute(
                bytes@,
            ),
            _ => r == *default,
        }),
{
    match persisted {
        Some(bytes) => {
            match decode_display_attribute(bytes) {
                Some(attr) => attr,
                None => *default,
            }
        },
        None => *default,
    }
}

/// Descriptor of one display attribute identity: its identity, a stable
/// name the persisted override is keyed by, a human-readable description,
/// and the compiled-in default style record.
pub struct DisplayAttributeInfo {
    pub guid: u128,
    pub name: &'static str,
    pub description: &'static str,
    pub attribute: DisplayAttribute,
}

impl DisplayAttributeInfo {
    /// The descriptor of the Input identity.
    pub fn new_input() -> (r: DisplayAttributeInfo)
        ensures
            r.guid == GUID_DISPLAY_ATTRIBUTE_INPUT,
            r.attribute == spec_input_attribute(),
            r.name@ == "DisplayAttributeInput"@,
            r.description@ == "TextService Display Attribute Input"@,
    {
        DisplayAttributeInfo {
            guid: GUID_DISPLAY_ATTRIBUTE_INPUT,
            name: "DisplayAttributeInput",
            description: "TextService Display Attribute Input",
            attribute: default_input_attribute(),
        }
    }

    /// The descriptor of the Converted identity.
    pub fn new_converted() -> (r: DisplayAttributeInfo)
        ensures
            r.guid == GUID_DISPLAY_ATTRIBUTE_CONVERTED,
            r.attribute == spec_converted_attribute(),
            r.name@ == "DisplayAttributeConverted"@,
            r.description@ == "TextService Display Attribute Converted"@,
    {
        DisplayAttributeInfo {
            guid: GUID_DISPLAY_ATTRIBUTE_CONVERTED,
            name: "DisplayAttributeConverted",
            description: "TextService Display Attribute Converted",
            attribute: default_converted_attribute(),
        }
    }

    /// The identity this descriptor describes.
    pub fn get_guid(&self) -> (g: u128)
        ensures
            g == self.guid,
    {
        self.guid
    }

    /// The style record in effect for this identity, given whatever bytes
    /// the external store persisted under this descriptor's name: a
    /// structurally valid override wins, anything else falls back to the
    /// compiled-in default.
    pub fn get_attribute_info(&self, persisted: Option<&Vec<u8>>) -> (r: DisplayAttribute)
        ensures
            (match persisted {
                Some(bytes) if bytes@.len() == ATTRIBUTE_RECORD_SIZE => r == spec_decode_attribute(
                    bytes@,
                ),
                _ => r == self.attribute,
            }),
    {
        effective_attribute(persisted, &self.attribute)
    }

    /// The bytes the external store should persist to override this
    /// identity's style with `attr`.
    pub fn set_attribute_info(&self, attr: &DisplayAttribute) -> (bytes: Vec<u8>)
        ensures
            bytes@ == spec_encode_attribute(*attr),
            bytes@.len() == ATTRIBUTE_RECORD_SIZE,
    {
        encode_display_attribute(attr)
    }

    /// The bytes that restore this identity's compiled-in default.
    pub fn reset(&self) -> (bytes: Vec<u8>)
        ensures
            bytes@ == spec_encode_attribute(self.attribute),
            bytes@.len() == ATTRIBUTE_RECORD_SIZE,
    {
        encode_display_attribute(&self.attribute)
    }
}

/// How many display attribute identities the service exposes.
pub const DISPLAY_ATTRIBUTE_COUNT: u32 = 2;

/// Enumerator over the two fixed display attribute descriptors, in order:
/// Input first, Converted second.
#[derive(Clone, Copy, PartialEq, Eq, Structural, Debug)]
pub struct EnumDisplayAttributeInfo {
    /// Position of the next descriptor to hand out.
    pub index: u32,
}

impl EnumDisplayAttributeInfo {
    /// A fresh enumeration positioned at the first descriptor.
    pub fn new() -> (r: EnumDisplayAttributeInfo)
        ensures
            r.index == 0,
    {
        EnumDisplayAttributeInfo { index: 0 }
    }

    /// How many descriptors remain from position `index`.
    pub open spec fn spec_remaining(self) -> int {
        if self.index < DISPLAY_ATTRIBUTE_COUNT {
            DISPLAY_ATTRIBUTE_COUNT - self.index
        } else {
            0
        }
    }

    /// Hands out up to `count` descriptors, advancing the position past
    /// them.  Returns the descriptors and whether the full count was
    /// served.
    pub fn next(&mut self, count: u32) -> (r: (Vec<DisplayAttributeInfo>, bool))
        ensures
            r.0@.len() == (if count <= old(self).spec_remaining() {
                count as int
            } else {
                old(self).spec_remaining()
            }),
            final(self).index == old(self).index + r.0@.len(),
            r.1 == (r.0@.len() == count),
            forall|i: int|
                0 <= i < r.0@.len() ==> (#[trigger] r.0@[i]).guid == (if old(self).index + i == 0 {
                    GUID_DISPLAY_ATTRIBUTE_INPUT
                } else {
                    GUID_DISPLAY_ATTRIBUTE_CONVERTED
                }),
            forall|i: int|
                0 <= i < r.0@.len() ==> (#[trigger] r.0@[i]).attribute == (if old(self).index + i
                    == 0 {
                    spec_input_attribute()
                } else {
                    spec_converted_attribute()
                }),
    {
        let mut items: Vec<DisplayAttributeInfo> = Vec::new();
        let mut fetched: u32 = 0;
        while fetched < count && self.index < DISPLAY_ATTRIBUTE_COUNT
            invariant
                fetched <= count,
                self.index == old(self).index + fetched,
                items@.len() == fetched,
                fetched <= old(self).spec_remaining(),
                forall|i: int|
                    0 <= i < items@.len() ==> (#[trigger] items@[i]).guid == (if old(self).index + i
                        == 0 {
                        GUID_DISPLAY_ATTRIBUTE_INPUT
                    } else {
                        GUID_DISPLAY_ATTRIBUTE_CONVERTED
                    }),
                forall|i: int|
                    0 <= i < items@.len() ==> (#[trigger] items@[i]).attribute == (if old(
                        self,
                    ).index + i == 0 {
                        spec_input_attribute()
                    } else {
                        spec_converted_attribute()
                    }),
            decreases count - fetched,
        {
            if self.index == 0 {
                items.push(DisplayAttributeInfo::new_input());
            } else {
                items.push(DisplayAttributeInfo::new_converted());
            }
            self.index = self.index + 1;
            fetched = fetched + 1;
        }
        let complete = fetched == count;
        (items, complete)
    }

    /// Rewinds the enumeration to the first descriptor.
    pub fn reset(&mut self)
        ensures
            final(self).index == 0,
    {
        self.index = 0;
    }

    /// Skips past descriptors.  Only the step from the first descriptor
    /// to the second is ever taken: a skip from any later position changes
    /// nothing, so skipping can never overflow the position.
    pub fn skip(&mut self, count: u32)
        ensures
            final(self).index == (if count > 0 && old(self).index == 0 {
                1u32
            } else {
                old(self).index
            }),
    {
        if count > 0 && self.index == 0 {
            self.index = 1;
        }
    }
}

impl TextService {
    /// A fresh enumerator over the service's display attribute
    /// descriptors.
    pub fn enum_display_attribute_info(&self) -> (r: EnumDisplayAttributeInfo)
        ensures
            r.index == 0,
    {
        EnumDisplayAttributeInfo::new()
    }

    /// The descriptor for one display attribute identity; identities the
    /// service does not expose are refused.
    pub fn get_display_attribute_info(&self, guid: u128) -> (r: Option<DisplayAttributeInfo>)
        ensures
            r is Some <==> (guid == GUID_DISPLAY_ATTRIBUTE_INPUT || guid
                == GUID_DISPLAY_ATTRIBUTE_CONVERTED),
            r matches Some(info) ==> info.guid == guid,
            r matches Some(info) ==> info.attribute == (if guid == GUID_DISPLAY_ATTRIBUTE_INPUT {
                spec_input_attribute()
            } else {
                spec_converted_attribute()
            }),
    {
        if guid == GUID_DISPLAY_ATTRIBUTE_INPUT {
            Some(DisplayAttributeInfo::new_input())
        } else if guid == GUID_DISPLAY_ATTRIBUTE_CONVERTED {
            Some(DisplayAttributeInfo::new_converted())
        } else {
            None
        }
    }
}

impl TextService {
    /// Caches the runtime atoms the host mapped the two style identities
    /// to.  The mapping is expensive, so it happens once per activation and
    /// the atoms are kept on the session; succeeds only when the host
    /// answered for both identities.
    pub fn init_display_attribute_guid_atom(
        &mut self,
        input_atom: Option<u32>,
        converted_atom: Option<u32>,
    ) -> (ok: bool)
        ensures
            ok == (input_atom is Some && converted_atom is Some),
            final(self).input_atom == (if input_atom is Some {
                input_atom
            } else {
                old(self).input_atom
            }),
            final(self).converted_atom == (if input_atom is Some && converted_atom is Some {
                converted_atom
            } else {
                old(self).converted_atom
            }),
            *final(self) == (TextService {
                input_atom: final(self).input_atom,
                converted_atom: final(self).converted_atom,
                ..*old(self)
            }),
    {
        match input_atom {
            Some(atom) => {
                self.input_atom = Some(atom);
            },
            None => {
                return false;
            },
        }
        match converted_atom {
            Some(atom) => {
                self.converted_atom = Some(atom);
                true
            },
            None => false,
        }
    }

    /// Applies a style atom as the attribute property over the whole
    /// composition range.  Without an active composition, or with an absent
    /// property store, nothing is written.
    pub fn set_composition_display_attributes(&self, ctx: &mut EditContext, attribute: u32) -> (ok:
        bool)
        requires
            old(ctx).wf(),
        ensures
            final(ctx).wf(),
            ok == (self.composition is Some && old(ctx).attrs.present),
            (match self.composition {
                Some(c) => {
                    if old(ctx).attrs.present {
                        final(ctx).attrs.present && final(ctx).attrs.attr_map() == old(
                            ctx,
                        ).attrs.attr_map().insert(c.range, attribute)
                    } else {
                        !final(ctx).attrs.present && final(ctx).attrs.entries@ == old(
                            ctx,
                        ).attrs.entries@
                    }
                },
                None => final(ctx).attrs == old(ctx).attrs,
            }),
            final(ctx).doc == old(ctx).doc,
            final(ctx).text@ == old(ctx).text@,
            final(ctx).sel_start == old(ctx).sel_start,
            final(ctx).sel_end == old(ctx).sel_end,
    {
        match &self.composition {
            Some(c) => {
                let range = c.range;
                ctx.attrs.set_value(&range, attribute)
            },
            None => false,
        }
    }

    /// Clears the attribute property over the whole composition range.
    /// Without an active composition, or with an absent property store,
    /// nothing is removed.
    pub fn clear_composition_display_attributes(&self, ctx: &mut EditContext)
        requires
            old(ctx).wf(),
        ensures
            final(ctx).wf(),
            (match self.composition {
                Some(c) => {
                    if old(ctx).attrs.present {
                        final(ctx).attrs.present && final(ctx).attrs.attr_map() == old(
                            ctx,
                        ).attrs.attr_map().remove(c.range)
                    } else {
                        !final(ctx).attrs.present && final(ctx).attrs.entries@ == old(
                            ctx,
                        ).attrs.entries@
                    }
                },
                None => final(ctx).attrs == old(ctx).attrs,
            }),
            final(ctx).doc == old(ctx).doc,
            final(ctx).text@ == old(ctx).text@,
            final(ctx).sel_start == old(ctx).sel_start,
            final(ctx).sel_end == old(ctx).sel_end,
    {
        match &self.composition {
            Some(c) => {
                let range = c.range;
                let _cleared = ctx.attrs.clear_value(&range);
            },
            None => {},
        }
    }
}

} // verus!
