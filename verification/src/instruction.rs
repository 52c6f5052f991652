//! The 16-bit instruction word and its bit fields.

use vstd::prelude::*;
use crate::text::{hex4, push_hex4};

verus! {

/// A raw 16-bit instruction word.
///
/// Bits 12..16 select the operation; the remaining twelve bits are read as
/// `nnn` (all twelve), as `x` and `kk`, or as `x`, `y` and `n`, depending on
/// the operation. Every word decodes: the accessors are total.
///
/// Read in base 16 the word has four digits: the operation selector, `x`,
/// `y` and `n`. The specification functions say so by division and
/// remainder; the accessors compute the same by shift and mask.
#[derive(Debug, Clone, Copy, PartialEq, Eq, Structural)]
pub struct Instruction(pub u16);

impl Instruction {
    /// The leading base-16 digit of the word: its top four bits.
    pub open spec fn spec_opcode(&self) -> u16 {
        self.0 / 4096
    }

    /// The low three base-16 digits of the word: its low twelve bits.
    pub open spec fn spec_nnn(&self) -> u16 {
        self.0 % 4096
    }

    /// The second base-16 digit of the word: bits 8..12.
    pub open spec fn spec_x(&self) -> u8 {
        (self.0 / 256 % 16) as u8
    }

    /// The third base-16 digit of the word: bits 4..8.
    pub open spec fn spec_y(&self) -> u8 {
        (self.0 / 16 % 16) as u8
    }

    /// The low two base-16 digits of the word: its low eight bits.
    pub open spec fn spec_kk(&self) -> u8 {
        (self.0 % 256) as u8
    }

    /// The last base-16 digit of the word: its low four bits.
    pub open spec fn spec_n(&self) -> u8 {
        (self.0 % 16) as u8
    }

    /// The word as two bytes, most significant first.
    pub open spec fn spec_as_bytes(self) -> Seq<u8> {
        seq![(self.0 / 256) as u8, (self.0 % 256) as u8]
    }

    /// The word whose most significant byte is `hi` and whose least
    /// significant byte is `lo`.
    pub open spec fn spec_from_bytes(hi: u8, lo: u8) -> Instruction {
        Instruction((hi * 256 + lo) as u16)
    }

    /// The primary operation selector.
    #[verifier::when_used_as_spec(spec_opcode)]
    pub fn opcode(&self) -> (r: u16)
        ensures
            r == self.spec_opcode(),
            r == self.0 >> 12,
            r < 16,
    {
        proof {
            lemma_fields_are_bit_fields(*self);
        }
        self.0 >> 12
    }

    /// The 12-bit address or immediate operand.
    #[verifier::when_used_as_spec(spec_nnn)]
    pub fn nnn(&self) -> (r: u16)
        ensures
            r == self.spec_nnn(),
            r == self.0 & 0x0fff,
            r < 4096,
    {
        proof {
            lemma_fields_are_bit_fields(*self);
        }
        self.0 & 0x0fff
    }

    /// The first register index.
    #[verifier::when_used_as_spec(spec_x)]
    pub fn x(&self) -> (r: u8)
        ensures
            r == self.spec_x(),
            r == (self.0 & 0x0f00) >> 8,
            r < 16,
    {
        proof {
            lemma_fields_are_bit_fields(*self);
        }
        ((self.0 & 0x0f00) >> 8) as u8
    }

    /// The second register index.
    #[verifier::when_used_as_spec(spec_y)]
    pub fn y(&self) -> (r: u8)
        ensures
            r == self.spec_y(),
            r == (self.0 & 0x00f0) >> 4,
            r < 16,
    {
        proof {
            lemma_fields_are_bit_fields(*self);
        }
        ((self.0 & 0x00f0) >> 4) as u8
    }

    /// The 8-bit immediate operand.
    #[verifier::when_used_as_spec(spec_kk)]
    pub fn kk(&self) -> (r: u8)
        ensures
            r == self.spec_kk(),
            r == self.0 & 0x00ff,
    {
        proof {
            lemma_fields_are_bit_fields(*self);
        }
        (self.0 & 0x00ff) as u8
    }

    /// The secondary operation selector, or a 4-bit immediate.
    #[verifier::when_used_as_spec(spec_n)]
    pub fn n(&self) -> (r: u8)
        ensures
            r == self.spec_n(),
            r == self.0 & 0x000f,
            r < 16,
    {
        proof {
            lemma_fields_are_bit_fields(*self);
        }
        (self.0 & 0x000f) as u8
    }

    /// The word as four lower-case hexadecimal digits.
    pub fn to_string(&self) -> (r: String)
        ensures
            r@ == hex4(self.0, false),
    {
        let mut r = String::new();
        push_hex4(&mut r, self.0, false);
        r
    }

    /// The word as two bytes, most significant first.
    pub fn as_bytes(self) -> (r: [u8; 2])
        ensures
            r@ == self.spec_as_bytes(),
            Self::spec_from_bytes(r[0], r[1]) == self,
    {
        proof {
            lemma_bytes_are_bit_fields(self);
        }
        [(self.0 >> 8) as u8, (self.0 & 0xff) as u8]
    }

    /// The word made of two bytes, most significant first.
    pub fn from_bytes(bytes: [u8; 2]) -> (r: Self)
        ensures
            r == Self::spec_from_bytes(bytes[0], bytes[1]),
            r.spec_as_bytes() == bytes@,
    {
        proof {
            lemma_word_is_shifted_bytes(bytes[0], bytes[1]);
        }
        Instruction(((bytes[0] as u16) << 8) | bytes[1] as u16)
    }
}

/// Each field is the run of bits that its mask and shift pick out of the
/// word, and each register index and selector is below 16.
pub proof fn lemma_fields_are_bit_fields(i: Instruction)
    ensures
        i.opcode() == i.0 >> 12,
        i.nnn() == i.0 & 0x0fff,
        i.x() == (i.0 & 0x0f00) >> 8,
        i.y() == (i.0 & 0x00f0) >> 4,
        i.kk() == i.0 & 0x00ff,
        i.n() == i.0 & 0x000f,
        i.opcode() < 16,
        i.x() < 16,
        i.y() < 16,
        i.n() < 16,
        i.nnn() < 4096,
{
    let w = i.0;
    assert(w >> 12 == w / 4096) by (bit_vector);
    assert(w & 0x0fff == w % 4096) by (bit_vector);
    assert((w & 0x0f00) >> 8 == w / 256 % 16) by (bit_vector);
    assert((w & 0x00f0) >> 4 == w / 16 % 16) by (bit_vector);
    assert(w & 0x00ff == w % 256) by (bit_vector);
    assert(w & 0x000f == w % 16) by (bit_vector);
}

/// The fields of a word put the word together again: the operation selector
/// with `nnn`, with `x` and `kk`, or with `x`, `y` and `n`; by shifting and
/// or-ing, or by multiplying and adding.
pub proof fn lemma_fields_rebuild_word(i: Instruction)
    ensures
        (i.opcode() << 12) | i.nnn() == i.0,
        (i.opcode() << 12) | ((i.x() as u16) << 8) | (i.kk() as u16) == i.0,
        (i.opcode() << 12) | ((i.x() as u16) << 8) | ((i.y() as u16) << 4) | (i.n() as u16)
            == i.0,
        i.opcode() * 4096 + i.nnn() == i.0,
        i.opcode() * 4096 + i.x() * 256 + i.kk() == i.0,
        i.opcode() * 4096 + i.x() * 256 + i.y() * 16 + i.n() == i.0,
{
    let w = i.0;
    assert(((w / 4096) << 12) | (w % 4096) == w) by (bit_vector);
    assert(((w / 4096) << 12) | (((w / 256 % 16) as u8 as u16) << 8) | ((w % 256) as u8 as u16)
        == w) by (bit_vector);
    assert(((w / 4096) << 12) | (((w / 256 % 16) as u8 as u16) << 8) | (((w / 16 % 16) as u8
        as u16) << 4) | ((w % 16) as u8 as u16) == w) by (bit_vector);
}

/// The two bytes of a word are what a shift by 8 and a mask of 8 bits pick
/// out of it, and joining them gives the word back.
pub proof fn lemma_bytes_are_bit_fields(i: Instruction)
    ensures
        i.spec_as_bytes()[0] == i.0 >> 8,
        i.spec_as_bytes()[1] == i.0 & 0xff,
        Instruction::spec_from_bytes(i.spec_as_bytes()[0], i.spec_as_bytes()[1]) == i,
{
    let w = i.0;
    assert(w >> 8 == w / 256 && w & 0xff == w % 256) by (bit_vector);
}

/// The word made of two bytes is the first shifted left by 8 or-ed with the
/// second, and splitting it gives the bytes back.
pub proof fn lemma_word_is_shifted_bytes(hi: u8, lo: u8)
    ensures
        Instruction::spec_from_bytes(hi, lo).0 == ((hi as u16) << 8) | (lo as u16),
        Instruction::spec_from_bytes(hi, lo).spec_as_bytes() == seq![hi, lo],
{
    assert(((hi as u16) << 8) | (lo as u16) == hi * 256 + lo) by (bit_vector);
}

/// Decoding is a function of the word alone: two instructions with the same
/// word have the same value in every field.
pub proof fn lemma_decoding_is_pure(a: Instruction, b: Instruction)
    requires
        a.0 == b.0,
    ensures
        a.opcode() == b.opcode(),
        a.nnn() == b.nnn(),
        a.x() == b.x(),
        a.y() == b.y(),
        a.kk() == b.kk(),
        a.n() == b.n(),
        a.spec_as_bytes() == b.spec_as_bytes(),
{
}

} // verus!
