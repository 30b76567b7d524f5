//! Instruction words and their decoding.
//!
//! A 16-bit instruction word splits into three fields — opcode, register
//! id, operand — under a [`FieldLayout`] chosen when a machine is put
//! together. Both machine variants here use the standard layout: the top
//! four bits are the opcode, the next four bits a register id, and the low
//! eight bits the operand (an immediate value or a target address). The
//! byte-oriented machine reaches this layout by packing two consecutive
//! memory bytes into one word; the word-oriented machine fetches the word
//! directly. Decoding is total under every layout: every bit pattern
//! decodes to some [`Instr`], even when its opcode is not recognized by an
//! executor, and re-encoding the decoded fields always recovers the word.

use vstd::prelude::*;

verus! {

/// The halt opcode, shared by both instruction sets.
pub const OP_HALT: u8 = 0xF;

/// A decoded instruction: structured view of one raw 16-bit word.
#[derive(Clone, Copy, PartialEq, Eq, Structural, Debug)]
pub struct Instr {
    /// Operation selector, the top four bits of the word; always below 16.
    pub opcode: u8,
    /// Register id, the next four bits; always below 16.
    pub reg: u8,
    /// Immediate value or target address, the low eight bits.
    pub operand: u8,
}

/// How a 16-bit instruction word splits into its three fields, most
/// significant field first: `opcode_bits`, then `reg_bits`, then
/// `operand_bits`. A layout is chosen when a machine is put together and
/// fixed from then on; both machine variants here use
/// [`FieldLayout::standard`], but the decoder itself works for any
/// well-formed layout.
#[derive(Clone, Copy, PartialEq, Eq, Structural, Debug)]
pub struct FieldLayout {
    /// Width of the opcode field, in bits; at least one, at most eight.
    pub opcode_bits: u16,
    /// Width of the register-id field, in bits; at most eight.
    pub reg_bits: u16,
    /// Width of the operand field, in bits; at most eight.
    pub operand_bits: u16,
}

impl FieldLayout {
    /// Each field fits the eight-bit fields of [`Instr`], there is an
    /// opcode, and the three fields exactly cover the 16-bit word.
    pub open spec fn wf(self) -> bool {
        &&& 1 <= self.opcode_bits <= 8
        &&& self.reg_bits <= 8
        &&& self.operand_bits <= 8
        &&& self.opcode_bits + self.reg_bits + self.operand_bits == 16
    }

    /// The layout both machine variants use: a four-bit opcode, a four-bit
    /// register id, and an eight-bit operand.
    pub fn standard() -> (layout: FieldLayout)
        ensures
            layout == standard_layout(),
            layout.wf(),
    {
        FieldLayout { opcode_bits: 4, reg_bits: 4, operand_bits: 8 }
    }
}

/// The layout both machine variants use.
pub open spec fn standard_layout() -> FieldLayout {
    FieldLayout { opcode_bits: 4, reg_bits: 4, operand_bits: 8 }
}

/// The low `bits` bits set, for `bits` at most eight.
pub open spec fn spec_field_mask(bits: u16) -> u16 {
    ((1u16 << bits) - 1) as u16
}

/// The three fields a word decodes to under a layout.
pub open spec fn spec_decode_with(layout: FieldLayout, word: u16) -> Instr {
    Instr {
        opcode: ((word >> ((layout.reg_bits + layout.operand_bits) as u16)) & spec_field_mask(
            layout.opcode_bits,
        )) as u8,
        reg: ((word >> layout.operand_bits) & spec_field_mask(layout.reg_bits)) as u8,
        operand: (word & spec_field_mask(layout.operand_bits)) as u8,
    }
}

/// The word that a set of fields encodes to under a layout.
pub open spec fn spec_encode_with(layout: FieldLayout, ins: Instr) -> u16 {
    (((ins.opcode as u16) << ((layout.reg_bits + layout.operand_bits) as u16)) | ((ins.reg as u16)
        << layout.operand_bits)) | (ins.operand as u16)
}

/// The three fields any 16-bit word decodes to, under the standard
/// layout.
pub open spec fn spec_decode(word: u16) -> Instr {
    Instr {
        opcode: (word >> 12) as u8,
        reg: ((word >> 8) & 0xF) as u8,
        operand: (word & 0xFF) as u8,
    }
}

/// The word that a set of in-range fields encodes to.
pub open spec fn spec_encode(ins: Instr) -> u16 {
    (((ins.opcode as u16) << 12) | ((ins.reg as u16) << 8)) | (ins.operand as u16)
}

/// The 16-bit word formed by a high and a low byte.
pub open spec fn spec_word_of_bytes(hi: u8, lo: u8) -> u16 {
    ((hi as u16) << 8) | (lo as u16)
}

/// Decode under a chosen field layout: shift each field down and mask it
/// to its width.
///
/// Total and pure for every layout: never consults any machine state,
/// never fails, and the same word always yields the same fields.
pub fn decode_with(layout: FieldLayout, word: u16) -> (ins: Instr)
    requires
        layout.wf(),
    ensures
        ins == spec_decode_with(layout, word),
        (ins.opcode as u16) <= spec_field_mask(layout.opcode_bits),
        (ins.reg as u16) <= spec_field_mask(layout.reg_bits),
        (ins.operand as u16) <= spec_field_mask(layout.operand_bits),
{
    let opcode_shift: u16 = layout.reg_bits + layout.operand_bits;
    proof {
        lemma_field_mask_fits_u8(layout.opcode_bits);
        lemma_field_mask_fits_u8(layout.reg_bits);
        lemma_field_mask_fits_u8(layout.operand_bits);
        let w = word;
        let s1 = opcode_shift;
        let m1 = spec_field_mask(layout.opcode_bits);
        let s2 = layout.operand_bits;
        let m2 = spec_field_mask(layout.reg_bits);
        let m3 = spec_field_mask(layout.operand_bits);
        assert(((w >> s1) & m1) <= m1 && ((w >> s2) & m2) <= m2 && (w & m3) <= m3)
            by (bit_vector);
    }
    let opcode_mask: u16 = (1u16 << layout.opcode_bits) - 1;
    let reg_mask: u16 = (1u16 << layout.reg_bits) - 1;
    let operand_mask: u16 = (1u16 << layout.operand_bits) - 1;
    Instr {
        opcode: ((word >> opcode_shift) & opcode_mask) as u8,
        reg: ((word >> layout.operand_bits) & reg_mask) as u8,
        operand: (word & operand_mask) as u8,
    }
}

/// Encode fields into a word under a chosen field layout: the inverse of
/// [`decode_with`] on fields that fit their widths.
pub fn encode_with(layout: FieldLayout, ins: Instr) -> (word: u16)
    requires
        layout.wf(),
    ensures
        word == spec_encode_with(layout, ins),
{
    let opcode_shift: u16 = layout.reg_bits + layout.operand_bits;
    (((ins.opcode as u16) << opcode_shift) | ((ins.reg as u16) << layout.operand_bits)) | (
    ins.operand as u16)
}

/// A field of at most eight bits has a mask of at most `0xFF`, so masking
/// and narrowing to a byte loses nothing.
pub proof fn lemma_field_mask_fits_u8(bits: u16)
    requires
        bits <= 8,
    ensures
        1 <= (1u16 << bits),
        spec_field_mask(bits) <= 0xFF,
{
    assert(bits <= 8 ==> (1 <= (1u16 << bits) && (1u16 << bits) - 1 <= 0xFF)) by (bit_vector);
}

/// Law: under every well-formed layout, decoding is invertible —
/// re-encoding the decoded fields of any raw word yields that word again,
/// so decoding loses no field value whatever the layout.
pub proof fn lemma_decode_encode_roundtrip_with(layout: FieldLayout, word: u16)
    requires
        layout.wf(),
    ensures
        spec_encode_with(layout, spec_decode_with(layout, word)) == word,
{
    let ob = layout.opcode_bits;
    let rb = layout.reg_bits;
    let pb = layout.operand_bits;
    let w = word;
    assert((((((w >> ((rb + pb) as u16)) & (((1u16 << ob) - 1) as u16)) as u8 as u16) << ((rb + pb) as u16))
        | ((((w >> pb) & (((1u16 << rb) - 1) as u16)) as u8 as u16) << pb)) | ((w & (((1u16 << pb) - 1) as u16))
        as u8 as u16) == w) by (bit_vector)
        requires
            1 <= ob <= 8,
            rb <= 8,
            pb <= 8,
            ob + rb + pb == 16,
    ;
}

/// Law: under every well-formed layout, encoding fields that fit their
/// widths and decoding again recovers the fields exactly.
pub proof fn lemma_encode_then_decode_with(layout: FieldLayout, ins: Instr)
    requires
        layout.wf(),
        (ins.opcode as u16) <= spec_field_mask(layout.opcode_bits),
        (ins.reg as u16) <= spec_field_mask(layout.reg_bits),
        (ins.operand as u16) <= spec_field_mask(layout.operand_bits),
    ensures
        spec_decode_with(layout, spec_encode_with(layout, ins)) == ins,
{
    let ob = layout.opcode_bits;
    let rb = layout.reg_bits;
    let pb = layout.operand_bits;
    let o = ins.opcode;
    let r = ins.reg;
    let p = ins.operand;
    lemma_field_mask_fits_u8(ob);
    lemma_field_mask_fits_u8(rb);
    lemma_field_mask_fits_u8(pb);
    assert({
        let w2 = (((o as u16) << ((rb + pb) as u16)) | ((r as u16) << pb)) | (p as u16);
        (((w2 >> ((rb + pb) as u16)) & (((1u16 << ob) - 1) as u16)) as u8) == o && (((w2 >> pb)
            & (((1u16 << rb) - 1) as u16)) as u8) == r && ((w2 & (((1u16 << pb) - 1) as u16))
            as u8) == p
    }) by (bit_vector)
        requires
            1 <= ob <= 8,
            rb <= 8,
            pb <= 8,
            ob + rb + pb == 16,
            (o as u16) <= (1u16 << ob) - 1,
            (r as u16) <= (1u16 << rb) - 1,
            (p as u16) <= (1u16 << pb) - 1,
    ;
}

/// Under the standard layout the parameterized decoder and encoder agree
/// with [`spec_decode`] and [`spec_encode`].
pub proof fn lemma_standard_layout_agrees(word: u16, ins: Instr)
    ensures
        spec_decode_with(standard_layout(), word) == spec_decode(word),
        spec_encode_with(standard_layout(), ins) == spec_encode(ins),
{
    let w = word;
    assert(((w >> ((4u16 + 8u16) as u16)) & (((1u16 << 4u16) - 1) as u16)) as u8 == (w >> 12) as u8 && ((w
        >> 8u16) & (((1u16 << 4u16) - 1) as u16)) as u8 == ((w >> 8) & 0xF) as u8 && (w & (((1u16
        << 8u16) - 1) as u16)) as u8 == (w & 0xFF) as u8) by (bit_vector);
    let o = ins.opcode;
    let r = ins.reg;
    let p = ins.operand;
    assert((((o as u16) << ((4u16 + 8u16) as u16)) | ((r as u16) << 8u16)) | (p as u16) == (((
    o as u16) << 12) | ((r as u16) << 8)) | (p as u16)) by (bit_vector);
}

/// Decode: split a raw word into opcode, register id and operand under the
/// standard layout.
///
/// Total and pure: never consults any machine state, never fails, and the
/// same word always yields the same fields.
pub fn decode(word: u16) -> (ins: Instr)
    ensures
        ins == spec_decode(word),
        ins.opcode < 16,
        ins.reg < 16,
{
    proof {
        lemma_decode_fields_in_range(word);
        lemma_standard_layout_agrees(word, spec_decode(word));
    }
    decode_with(FieldLayout::standard(), word)
}

/// Assemble an instruction word from its fields.
///
/// The inverse of [`decode`] on in-range fields: decoding the assembled
/// word recovers exactly the fields given here.
pub fn assemble(opcode: u8, r: u8, imm: u8) -> (word: u16)
    requires
        opcode < 16,
        r < 16,
    ensures
        word == spec_encode((Instr { opcode, reg: r, operand: imm })),
        spec_decode(word) == (Instr { opcode, reg: r, operand: imm }),
{
    proof {
        lemma_encode_then_decode(opcode, r, imm);
    }
    (((opcode as u16) << 12) | ((r as u16) << 8)) | (imm as u16)
}

/// Pack two bytes into one instruction word, high byte first.
pub fn word_of_bytes(hi: u8, lo: u8) -> (word: u16)
    ensures
        word == spec_word_of_bytes(hi, lo),
{
    ((hi as u16) << 8) | (lo as u16)
}

/// Decoded fields are always four or eight bits wide.
pub proof fn lemma_decode_fields_in_range(word: u16)
    by (bit_vector)
    ensures
        ((word >> 12) as u8) < 16,
        (((word >> 8) & 0xF) as u8) < 16,
        spec_decode(word).opcode < 16,
        spec_decode(word).reg < 16,
{
}

/// Law: decoding is invertible — re-encoding the decoded fields of any raw
/// word yields that word again, so decoding loses no field value.
pub proof fn lemma_decode_encode_roundtrip(word: u16)
    ensures
        spec_encode(spec_decode(word)) == word,
{
    assert((((((word >> 12) as u8) as u16) << 12) | (((((word >> 8) & 0xF) as u8) as u16) << 8))
        | (((word & 0xFF) as u8) as u16) == word) by (bit_vector);
}

/// Encoding in-range fields and decoding again recovers the fields exactly.
pub proof fn lemma_encode_then_decode(opcode: u8, r: u8, imm: u8)
    requires
        opcode < 16,
        r < 16,
    ensures
        spec_decode(spec_encode((Instr { opcode, reg: r, operand: imm }))) == (Instr {
            opcode,
            reg: r,
            operand: imm,
        }),
{
    let word = (((opcode as u16) << 12) | ((r as u16) << 8)) | (imm as u16);
    assert((word >> 12) as u8 == opcode && ((word >> 8) & 0xF) as u8 == r && (word & 0xFF) as u8
        == imm) by (bit_vector)
        requires
            word == (((opcode as u16) << 12) | ((r as u16) << 8)) | (imm as u16),
            opcode < 16,
            r < 16,
    ;
}

/// The fields of a word packed from two bytes come straight from the bytes:
/// the opcode and register id are the high byte's nibbles, and the operand
/// is the low byte.
pub proof fn lemma_decode_byte_pair(hi: u8, lo: u8)
    ensures
        spec_decode(spec_word_of_bytes(hi, lo)) == (Instr {
            opcode: (hi >> 4) as u8,
            reg: (hi & 0xF) as u8,
            operand: lo,
        }),
{
    let word = ((hi as u16) << 8) | (lo as u16);
    assert((word >> 12) as u8 == (hi >> 4) as u8 && ((word >> 8) & 0xF) as u8 == (hi & 0xF) as u8
        && (word & 0xFF) as u8 == lo) by (bit_vector)
        requires
            word == ((hi as u16) << 8) | (lo as u16),
    ;
}

} // verus!
