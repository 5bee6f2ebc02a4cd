//! Flag algebra: packing and unpacking between named boolean flags and the
//! bit positions they occupy in the hardware status registers.

use vstd::prelude::*;

verus! {

use crate::arith::{sext32, sext64};

/// Sticky-overflow, overflow and 32-bit-overflow flags. In the 64-bit XER
/// status word they live at bits 32, 33 and 44, counting from the most
/// significant bit.
#[derive(Clone, Copy, Debug, PartialEq, Eq, Structural)]
pub struct OverflowFlags {
    pub so: bool,
    pub ov: bool,
    pub ov32: bool,
}

impl OverflowFlags {
    /// The flags recorded in an XER status word; every other bit is ignored.
    pub open spec fn spec_from_xer(xer: u64) -> OverflowFlags {
        OverflowFlags {
            so: xer & 0x8000_0000 != 0,
            ov: xer & 0x4000_0000 != 0,
            ov32: xer & 0x8_0000 != 0,
        }
    }

    /// The XER status word holding exactly these flags, all other bits zero.
    pub open spec fn spec_to_xer(self) -> u64 {
        (if self.so {
            0x8000_0000u64
        } else {
            0
        }) | (if self.ov {
            0x4000_0000u64
        } else {
            0
        }) | (if self.ov32 {
            0x8_0000u64
        } else {
            0
        })
    }

    pub fn from_xer(xer: u64) -> (r: Self)
        ensures
            r == Self::spec_from_xer(xer),
    {
        OverflowFlags {
            so: xer & 0x8000_0000 != 0,
            ov: xer & 0x4000_0000 != 0,
            ov32: xer & 0x8_0000 != 0,
        }
    }

    pub fn to_xer(self) -> (r: u64)
        ensures
            r == self.spec_to_xer(),
    {
        (if self.so {
            0x8000_0000u64
        } else {
            0
        }) | (if self.ov {
            0x4000_0000u64
        } else {
            0
        }) | (if self.ov32 {
            0x8_0000u64
        } else {
            0
        })
    }

    /// Every overflow flag set to the same freshly computed state.
    pub fn from_overflow(overflow: bool) -> (r: Self)
        ensures
            r == (OverflowFlags { so: overflow, ov: overflow, ov32: overflow }),
    {
        OverflowFlags { so: overflow, ov: overflow, ov32: overflow }
    }
}

impl Default for OverflowFlags {
    fn default() -> (r: Self)
        ensures
            r == (OverflowFlags { so: false, ov: false, ov32: false }),
    {
        OverflowFlags { so: false, ov: false, ov32: false }
    }
}

/// Law: packing overflow flags into a status word and extracting them again
/// reproduces the flags, for every combination of the three booleans.
pub proof fn lemma_overflow_flags_roundtrip(f: OverflowFlags)
    ensures
        OverflowFlags::spec_from_xer(f.spec_to_xer()) == f,
{
    let so = f.so;
    let ov = f.ov;
    let ov32 = f.ov32;
    assert((((if so {
        0x8000_0000u64
    } else {
        0
    }) | (if ov {
        0x4000_0000u64
    } else {
        0
    }) | (if ov32 {
        0x8_0000u64
    } else {
        0
    })) & 0x8000_0000 != 0) == so) by (bit_vector);
    assert((((if so {
        0x8000_0000u64
    } else {
        0
    }) | (if ov {
        0x4000_0000u64
    } else {
        0
    }) | (if ov32 {
        0x8_0000u64
    } else {
        0
    })) & 0x4000_0000 != 0) == ov) by (bit_vector);
    assert((((if so {
        0x8000_0000u64
    } else {
        0
    }) | (if ov {
        0x4000_0000u64
    } else {
        0
    }) | (if ov32 {
        0x8_0000u64
    } else {
        0
    })) & 0x8_0000 != 0) == ov32) by (bit_vector);
}

/// Carry-out flags at 64-bit and 32-bit width. In the 64-bit XER status word
/// they live at bits 34 and 45, counting from the most significant bit.
#[derive(Clone, Copy, Debug, PartialEq, Eq, Structural)]
pub struct CarryFlags {
    pub ca: bool,
    pub ca32: bool,
}

impl CarryFlags {
    /// The flags recorded in an XER status word; every other bit is ignored.
    pub open spec fn spec_from_xer(xer: u64) -> CarryFlags {
        CarryFlags { ca: xer & 0x2000_0000 != 0, ca32: xer & 0x4_0000 != 0 }
    }

    /// The XER status word holding exactly these flags, all other bits zero.
    pub open spec fn spec_to_xer(self) -> u64 {
        (if self.ca {
            0x2000_0000u64
        } else {
            0
        }) | (if self.ca32 {
            0x4_0000u64
        } else {
            0
        })
    }

    pub fn from_xer(xer: u64) -> (r: Self)
        ensures
            r == Self::spec_from_xer(xer),
    {
        CarryFlags { ca: xer & 0x2000_0000 != 0, ca32: xer & 0x4_0000 != 0 }
    }

    pub fn to_xer(self) -> (r: u64)
        ensures
            r == self.spec_to_xer(),
    {
        (if self.ca {
            0x2000_0000u64
        } else {
            0
        }) | (if self.ca32 {
            0x4_0000u64
        } else {
            0
        })
    }
}

impl Default for CarryFlags {
    fn default() -> (r: Self)
        ensures
            r == (CarryFlags { ca: false, ca32: false }),
    {
        CarryFlags { ca: false, ca32: false }
    }
}

/// Law: packing carry flags into a status word and extracting them again
/// reproduces the flags, for every combination of the two booleans.
pub proof fn lemma_carry_flags_roundtrip(f: CarryFlags)
    ensures
        CarryFlags::spec_from_xer(f.spec_to_xer()) == f,
{
    let ca = f.ca;
    let ca32 = f.ca32;
    assert((((if ca {
        0x2000_0000u64
    } else {
        0
    }) | (if ca32 {
        0x4_0000u64
    } else {
        0
    })) & 0x2000_0000 != 0) == ca) by (bit_vector);
    assert((((if ca {
        0x2000_0000u64
    } else {
        0
    }) | (if ca32 {
        0x4_0000u64
    } else {
        0
    })) & 0x4_0000 != 0) == ca32) by (bit_vector);
}

/// One condition-register field: less-than, greater-than, equal and
/// summary-overflow, encoded in a 4-bit group as bit 3 down to bit 0.
#[derive(Clone, Copy, Debug, PartialEq, Eq, Structural)]
pub struct ConditionRegister {
    pub lt: bool,
    pub gt: bool,
    pub eq: bool,
    pub so: bool,
}

impl ConditionRegister {
    /// How many 4-bit condition fields the 32-bit condition register holds.
    pub const CR_FIELD_COUNT: usize = 8;

    /// The flags encoded in a 4-bit condition field: bit 3 is `lt`, bit 2 is
    /// `gt`, bit 1 is `eq`, bit 0 is `so`.
    pub open spec fn spec_from_4_bits(bits: u8) -> ConditionRegister {
        ConditionRegister {
            lt: bits & 8 != 0,
            gt: bits & 4 != 0,
            eq: bits & 2 != 0,
            so: bits & 1 != 0,
        }
    }

    /// The 4-bit encoding of these flags.
    pub open spec fn spec_to_4_bits(self) -> u8 {
        (if self.lt {
            8u8
        } else {
            0
        }) | (if self.gt {
            4u8
        } else {
            0
        }) | (if self.eq {
            2u8
        } else {
            0
        }) | (if self.so {
            1u8
        } else {
            0
        })
    }

    /// The field at `field_index` of a 32-bit condition register, fields
    /// numbered from the most significant nibble down.
    pub open spec fn spec_from_cr_field(cr: u32, field_index: int) -> ConditionRegister {
        Self::spec_from_4_bits(((cr >> ((4 * (7 - field_index)) as u32)) & 0xF) as u8)
    }

    pub fn from_4_bits(bits: u8) -> (r: Self)
        requires
            bits < 0x10,
        ensures
            r == Self::spec_from_4_bits(bits),
    {
        ConditionRegister {
            lt: bits & 8 != 0,
            gt: bits & 4 != 0,
            eq: bits & 2 != 0,
            so: bits & 1 != 0,
        }
    }

    pub fn from_cr_field(cr: u32, field_index: usize) -> (r: Self)
        requires
            field_index < 8,
        ensures
            r == Self::spec_from_cr_field(cr, field_index as int),
    {
        let reversed_field_index: usize = 7 - field_index;
        let shift: u32 = 4 * (reversed_field_index as u32);
        let bits: u32 = (cr >> shift) & 0xF;
        proof {
            assert((cr >> shift) & 0xF < 0x10) by (bit_vector);
        }
        Self::from_4_bits(bits as u8)
    }

    /// The condition field written by a signed comparison of a 64-bit result
    /// with zero, with the summary-overflow bit carried in.
    pub fn from_signed_int(value: i64, so: bool) -> (r: Self)
        ensures
            r == (ConditionRegister { lt: value < 0, gt: value > 0, eq: value == 0, so }),
    {
        ConditionRegister { lt: value < 0, gt: value > 0, eq: value == 0, so }
    }

    /// The condition field written by a three-way comparison, with the
    /// summary-overflow bit carried in.
    pub fn from_ordering(ordering: core::cmp::Ordering, so: bool) -> (r: Self)
        ensures
            r.lt == (ordering == core::cmp::Ordering::Less),
            r.gt == (ordering == core::cmp::Ordering::Greater),
            r.eq == (ordering == core::cmp::Ordering::Equal),
            r.so == so,
    {
        match ordering {
            core::cmp::Ordering::Less => ConditionRegister { lt: true, gt: false, eq: false, so },
            core::cmp::Ordering::Greater => ConditionRegister {
                lt: false,
                gt: true,
                eq: false,
                so,
            },
            core::cmp::Ordering::Equal => ConditionRegister { lt: false, gt: false, eq: true, so },
        }
    }
}

/// The condition field derived from the signed 64-bit interpretation of a
/// result register, with the summary-overflow bit carried in.
pub open spec fn cr_signed64(rt: u64, so: bool) -> ConditionRegister {
    ConditionRegister { lt: sext64(rt) < 0, gt: sext64(rt) > 0, eq: sext64(rt) == 0, so }
}

/// The condition field derived from the signed interpretation of the low 32
/// bits of a result register, with the summary-overflow bit carried in.
pub open spec fn cr_signed32(rt: u64, so: bool) -> ConditionRegister {
    ConditionRegister { lt: sext32(rt) < 0, gt: sext32(rt) > 0, eq: sext32(rt) == 0, so }
}

/// The condition field derived from a three-way comparison of two exact
/// integer values, with the summary-overflow bit carried in.
pub open spec fn cr_compare(a: int, b: int, so: bool) -> ConditionRegister {
    ConditionRegister { lt: a < b, gt: a > b, eq: a == b, so }
}

/// Computes [`cr_signed64`]: the condition field for a result register
/// compared with zero at 64-bit width.
pub fn cr_of_signed64(rt: u64, so: bool) -> (r: ConditionRegister)
    ensures
        r == cr_signed64(rt, so),
{
    ConditionRegister {
        lt: rt >= 0x8000_0000_0000_0000,
        gt: rt != 0 && rt < 0x8000_0000_0000_0000,
        eq: rt == 0,
        so,
    }
}

/// Computes [`cr_signed32`]: the condition field for the low 32 bits of a
/// result register compared with zero.
pub fn cr_of_signed32(rt: u64, so: bool) -> (r: ConditionRegister)
    ensures
        r == cr_signed32(rt, so),
{
    let lo: u64 = rt % 0x1_0000_0000;
    ConditionRegister { lt: lo >= 0x8000_0000, gt: lo != 0 && lo < 0x8000_0000, eq: lo == 0, so }
}

/// Law: the 4-bit encoding of a decoded condition field reproduces the
/// original 4 bits.
pub proof fn lemma_cr_bits_roundtrip(bits: u8)
    requires
        bits < 0x10,
    ensures
        ConditionRegister::spec_from_4_bits(bits).spec_to_4_bits() == bits,
{
    assert(((if bits & 8 != 0 {
        8u8
    } else {
        0
    }) | (if bits & 4 != 0 {
        4u8
    } else {
        0
    }) | (if bits & 2 != 0 {
        2u8
    } else {
        0
    }) | (if bits & 1 != 0 {
        1u8
    } else {
        0
    })) == bits) by (bit_vector)
        requires
            bits < 0x10,
    ;
}

/// Law: decoding the 4-bit encoding of a condition field reproduces the
/// flags, for every combination of the four booleans.
pub proof fn lemma_cr_flags_roundtrip(f: ConditionRegister)
    ensures
        ConditionRegister::spec_from_4_bits(f.spec_to_4_bits()) == f,
{
    let lt = f.lt;
    let gt = f.gt;
    let eq = f.eq;
    let so = f.so;
    assert({
        let b = (if lt {
            8u8
        } else {
            0
        }) | (if gt {
            4u8
        } else {
            0
        }) | (if eq {
            2u8
        } else {
            0
        }) | (if so {
            1u8
        } else {
            0
        });
        (b & 8 != 0) == lt && (b & 4 != 0) == gt && (b & 2 != 0) == eq && (b & 1 != 0) == so
    }) by (bit_vector);
}

/// Law: the field extracted from a condition register re-encodes to exactly
/// the nibble that holds it, so extraction loses nothing.
pub proof fn lemma_cr_field_extraction(cr: u32, field_index: u32)
    requires
        field_index < 8,
    ensures
        ConditionRegister::spec_from_cr_field(cr, field_index as int).spec_to_4_bits() as u32 == (cr
            >> (4 * (7 - field_index))) & 0xF,
{
    let shift: u32 = (4 * (7 - field_index)) as u32;
    assert((cr >> shift) & 0xF < 0x10) by (bit_vector);
    lemma_cr_bits_roundtrip(((cr >> shift) & 0xF) as u8);
    assert((4 * (7 - field_index as int)) as u32 == shift);
}

} // verus!
