//! The multiply/divide extension: the four multiply forms and the four
//! divide/remainder forms, with the ISA's fixed answers for division by
//! zero and for the one overflowing signed division.

use crate::bits::{encode32, lemma_cast_i32, sg};
use crate::cpu::CPU;
use crate::encoding;
use crate::machine::{MachineView, StepView};
use vstd::arithmetic::div_mod::{
    lemma_div_is_ordered, lemma_fundamental_div_mod, lemma_fundamental_div_mod_converse,
    lemma_mod_multiples_vanish,
};
use vstd::arithmetic::power2::lemma2_to64;
use vstd::bits::lemma_u64_shr_is_div;
use vstd::prelude::*;

verus! {

/// The eight operations of the extension.
#[derive(Clone, Copy, Debug, PartialEq, Eq, Structural)]
pub enum OperationType {
    Mul,
    MulHighSigned,
    MulHighUnsigned,
    MulHighSignedUnsigned,
    Div,
    DivUnsigned,
    Remainder,
    RemainderUnsigned,
}

/// Truncated division: the quotient of the magnitudes, negative when
/// exactly one operand is.
pub open spec fn tdiv(x: int, y: int) -> int {
    let q = (if x < 0 {
        -x
    } else {
        x
    }) / (if y < 0 {
        -y
    } else {
        y
    });
    if (x < 0) != (y < 0) {
        -q
    } else {
        q
    }
}

/// The remainder of truncated division: the remainder of the
/// magnitudes, carrying the dividend's sign.
pub open spec fn trem(x: int, y: int) -> int {
    let r = (if x < 0 {
        -x
    } else {
        x
    }) % (if y < 0 {
        -y
    } else {
        y
    });
    if x < 0 {
        -r
    } else {
        r
    }
}

/// The value each operation computes from two register words. The
/// multiplies return the low or high half of the widened product, with
/// the operands read as signed, unsigned, or signed times unsigned.
/// Division rounds toward zero; a zero divisor yields all ones for the
/// quotient and the dividend for the remainder, and the one overflowing
/// signed quotient wraps back to the minimum.
pub open spec fn spec_muldiv_value(t: OperationType, a: u32, b: u32) -> u32 {
    match t {
        OperationType::Mul => a.wrapping_mul(b),
        OperationType::MulHighSigned => encode32((sg(a) * sg(b)) / 0x1_0000_0000),
        OperationType::MulHighUnsigned => encode32((a * b) / 0x1_0000_0000),
        OperationType::MulHighSignedUnsigned => encode32((sg(a) * b) / 0x1_0000_0000),
        OperationType::Div => if b == 0 {
            0xFFFF_FFFFu32
        } else {
            encode32(tdiv(sg(a), sg(b)))
        },
        OperationType::DivUnsigned => if b == 0 {
            0xFFFF_FFFFu32
        } else {
            a / b
        },
        OperationType::Remainder => if b == 0 {
            a
        } else {
            encode32(trem(sg(a), sg(b)))
        },
        OperationType::RemainderUnsigned => if b == 0 {
            a
        } else {
            a % b
        },
    }
}

/// A multiply or divide computation.
#[derive(Clone, Copy, Debug)]
pub struct Op {
    pub typ: OperationType,
    /// The multiplicand or dividend register.
    pub operand1: u8,
    /// The multiplier or divisor register.
    pub operand2: u8,
    pub dest: u8,
}

impl Op {
    /// What a word decodes to under the register-register shape, if it
    /// carries the register-register opcode and the extension's function
    /// field.
    pub open spec fn spec_parse(w: u32) -> Option<Op> {
        if encoding::spec_opcode(w) != 0x33 || encoding::spec_funct7(w) != 1 {
            None
        } else {
            let f3 = encoding::spec_funct3(w);
            let typ = if f3 == 0 {
                OperationType::Mul
            } else if f3 == 1 {
                OperationType::MulHighSigned
            } else if f3 == 2 {
                OperationType::MulHighSignedUnsigned
            } else if f3 == 3 {
                OperationType::MulHighUnsigned
            } else if f3 == 4 {
                OperationType::Div
            } else if f3 == 5 {
                OperationType::DivUnsigned
            } else if f3 == 6 {
                OperationType::Remainder
            } else {
                OperationType::RemainderUnsigned
            };
            Some(
                Op {
                    typ,
                    dest: encoding::spec_rd(w),
                    operand1: encoding::spec_rs1(w),
                    operand2: encoding::spec_rs2(w),
                },
            )
        }
    }

    /// Register indices stay inside the register file.
    pub open spec fn wf(self) -> bool {
        self.dest < 32 && self.operand1 < 32 && self.operand2 < 32
    }

    /// Decodes an extension computation, or nothing when the opcode or
    /// the function field differs.
    pub fn parse(instruction: u32) -> (r: Option<Op>)
        ensures
            r == Self::spec_parse(instruction),
            r matches Some(o) ==> o.wf(),
    {
        proof {
            encoding::lemma_field_bounds(instruction);
        }
        let decoded = encoding::R::parse(instruction);
        if decoded.opcode != 0x33 {
            return None;
        }
        if decoded.funct7 != 1 {
            return None;
        }
        let typ = match decoded.funct3 {
            0b000 => OperationType::Mul,
            0b001 => OperationType::MulHighSigned,
            0b010 => OperationType::MulHighSignedUnsigned,
            0b011 => OperationType::MulHighUnsigned,
            0b100 => OperationType::Div,
            0b101 => OperationType::DivUnsigned,
            0b110 => OperationType::Remainder,
            _ => OperationType::RemainderUnsigned,
        };
        Some(Op { typ, dest: decoded.rd, operand1: decoded.rs1, operand2: decoded.rs2 })
    }

    /// The computation's effect: the destination register takes the
    /// operation's value; nothing else changes.
    pub open spec fn effect(self, m: MachineView) -> StepView {
        StepView::quiet(
            m.write_reg(
                self.dest as int,
                spec_muldiv_value(
                    self.typ,
                    m.regs[self.operand1 as int],
                    m.regs[self.operand2 as int],
                ),
            ),
        )
    }

    /// Applies the computation to the processor.
    pub fn execute(&self, cpu: &mut CPU)
        requires
            old(cpu)@.wf(),
            self.wf(),
        ensures
            final(cpu)@ == self.effect(old(cpu)@).m,
            final(cpu)@.wf(),
    {
        let a = cpu.get_register(self.operand1);
        let b = cpu.get_register(self.operand2);
        proof {
            lemma_cast_i32(a);
            lemma_cast_i32(b);
        }
        let value: u32 = match self.typ {
            OperationType::Mul => a.wrapping_mul(b),
            OperationType::MulHighSigned => {
                let sa: i64 = (a as i32) as i64;
                let sb: i64 = (b as i32) as i64;
                proof {
                    assert(-0x4000_0000_0000_0000 <= sa * sb <= 0x4000_0000_0000_0000)
                        by (nonlinear_arith)
                        requires
                            -0x8000_0000 <= sa <= 0x7FFF_FFFF,
                            -0x8000_0000 <= sb <= 0x7FFF_FFFF,
                    ;
                }
                let p: i64 = sa * sb;
                let pu: u64 = p as u64;
                proof {
                    lemma_cast_i64_u64(p);
                    lemma_hi_half(p as int);
                }
                high_word(pu)
            },
            OperationType::MulHighUnsigned => {
                proof {
                    assert((a as u64) * (b as u64) <= 0xFFFF_FFFE_0000_0001) by (nonlinear_arith)
                        requires
                            a <= 0xFFFF_FFFF,
                            b <= 0xFFFF_FFFF,
                    ;
                }
                let p: u64 = (a as u64) * (b as u64);
                high_word(p)
            },
            OperationType::MulHighSignedUnsigned => {
                let sa: i64 = (a as i32) as i64;
                let ub: i64 = b as i64;
                proof {
                    assert(-0x8000_0000_0000_0000 < sa * ub < 0x8000_0000_0000_0000)
                        by (nonlinear_arith)
                        requires
                            -0x8000_0000 <= sa <= 0x7FFF_FFFF,
                            0 <= ub <= 0xFFFF_FFFF,
                    ;
                }
                let p: i64 = sa * ub;
                let pu: u64 = p as u64;
                proof {
                    lemma_cast_i64_u64(p);
                    lemma_hi_half(p as int);
                }
                high_word(pu)
            },
            OperationType::Div => {
                if b == 0 {
                    0xFFFF_FFFF
                } else {
                    let ma: u32 = if a >= 0x8000_0000 {
                        0u32.wrapping_sub(a)
                    } else {
                        a
                    };
                    let mb: u32 = if b >= 0x8000_0000 {
                        0u32.wrapping_sub(b)
                    } else {
                        b
                    };
                    let q: u32 = ma / mb;
                    if (a >= 0x8000_0000) != (b >= 0x8000_0000) {
                        0u32.wrapping_sub(q)
                    } else {
                        q
                    }
                }
            },
            OperationType::DivUnsigned => {
                if b == 0 {
                    0xFFFF_FFFF
                } else {
                    a / b
                }
            },
            OperationType::Remainder => {
                if b == 0 {
                    a
                } else {
                    let ma: u32 = if a >= 0x8000_0000 {
                        0u32.wrapping_sub(a)
                    } else {
                        a
                    };
                    let mb: u32 = if b >= 0x8000_0000 {
                        0u32.wrapping_sub(b)
                    } else {
                        b
                    };
                    let r: u32 = ma % mb;
                    if a >= 0x8000_0000 {
                        0u32.wrapping_sub(r)
                    } else {
                        r
                    }
                }
            },
            OperationType::RemainderUnsigned => {
                if b == 0 {
                    a
                } else {
                    a % b
                }
            },
        };
        cpu.set_register(self.dest, value);
    }
}

/// The high 32 bits of a 64-bit value.
fn high_word(p: u64) -> (r: u32)
    ensures
        r == (p as int) / 0x1_0000_0000,
{
    proof {
        lemma_u64_shr_is_div(p, 32);
        lemma2_to64();
        assert((p as int) / 0x1_0000_0000 < 0x1_0000_0000);
    }
    (p >> 32) as u32
}

/// Casting a signed 64-bit value to unsigned reduces it modulo 2^64.
proof fn lemma_cast_i64_u64(p: i64)
    ensures
        p as u64 == (p as int) % 0x1_0000_0000_0000_0000,
{
    assert(p >= 0 ==> p as u64 == p) by (bit_vector);
    assert(p < 0 ==> p as u64 == p + 0x1_0000_0000_0000_0000) by (bit_vector);
}

/// The 64-bit two's-complement value of a high/low word pair.
pub open spec fn sg64(hi: u32, lo: u32) -> int {
    let v = hi * 0x1_0000_0000 + lo;
    if v >= 0x8000_0000_0000_0000 {
        v - 0x1_0000_0000_0000_0000
    } else {
        v
    }
}

/// The low product word is the same for every reading of the operands:
/// the signed, unsigned and mixed products agree modulo 2^32.
proof fn lemma_prod_mod(a: u32, b: u32)
    ensures
        (sg(a) * sg(b)) % 0x1_0000_0000 == (a * b) % 0x1_0000_0000,
        (sg(a) * b) % 0x1_0000_0000 == (a * b) % 0x1_0000_0000,
{
    let d32: int = 0x1_0000_0000;
    let sa: int = if a >= 0x8000_0000 {
        1
    } else {
        0
    };
    let sb: int = if b >= 0x8000_0000 {
        1
    } else {
        0
    };
    assert(sg(a) * sg(b) == d32 * (d32 * sa * sb - sa * b - sb * a) + a * b) by (nonlinear_arith)
        requires
            sg(a) == a - d32 * sa,
            sg(b) == b - d32 * sb,
    ;
    lemma_mod_multiples_vanish(d32 * sa * sb - sa * b - sb * a, a * b, d32);
    assert(sg(a) * b == d32 * (-(sa * b)) + a * b) by (nonlinear_arith)
        requires
            sg(a) == a - d32 * sa,
    ;
    lemma_mod_multiples_vanish(-(sa * b), a * b, d32);
}

/// A 64-bit signed value split into its high and low words is read back
/// by the pair's two's-complement value.
proof fn lemma_signed_split(p: int, hi: u32, lo: u32)
    requires
        -0x8000_0000_0000_0000 < p < 0x8000_0000_0000_0000,
        hi == encode32(p / 0x1_0000_0000),
        lo == encode32(p),
    ensures
        sg64(hi, lo) == p,
{
    let d32: int = 0x1_0000_0000;
    let d64: int = 0x1_0000_0000_0000_0000;
    let q = p / d32;
    let r = p % d32;
    lemma_fundamental_div_mod(p, d32);
    lemma_div_is_ordered(-0x8000_0000_0000_0000 + 1, p, d32);
    lemma_div_is_ordered(p, 0x8000_0000_0000_0000 - 1, d32);
    if q >= 0 {
        assert(hi == q);
    } else {
        lemma_fundamental_div_mod_converse(q, d32, -1, q + d32);
        assert(hi == q + d32);
    }
}

/// The two multiply halves jointly equal the widened product: the high
/// and low words of the signed form read back the signed 64-bit product,
/// the unsigned form recomposes exactly, and the mixed form reads back
/// the product of a signed and an unsigned operand.
pub proof fn lemma_mul_split(a: u32, b: u32)
    ensures
        sg64(
            spec_muldiv_value(OperationType::MulHighSigned, a, b),
            spec_muldiv_value(OperationType::Mul, a, b),
        ) == sg(a) * sg(b),
        spec_muldiv_value(OperationType::MulHighUnsigned, a, b) * 0x1_0000_0000
            + spec_muldiv_value(OperationType::Mul, a, b) == a * b,
        sg64(
            spec_muldiv_value(OperationType::MulHighSignedUnsigned, a, b),
            spec_muldiv_value(OperationType::Mul, a, b),
        ) == sg(a) * b,
{
    let d32: int = 0x1_0000_0000;
    lemma_prod_mod(a, b);
    let lo = spec_muldiv_value(OperationType::Mul, a, b);
    assert(lo == (a * b) % d32);
    let p1 = sg(a) * sg(b);
    assert(-0x4000_0000_0000_0000 <= p1 <= 0x4000_0000_0000_0000) by (nonlinear_arith)
        requires
            p1 == sg(a) * sg(b),
            -0x8000_0000 <= sg(a) <= 0x7FFF_FFFF,
            -0x8000_0000 <= sg(b) <= 0x7FFF_FFFF,
    ;
    lemma_signed_split(p1, spec_muldiv_value(OperationType::MulHighSigned, a, b), lo);
    let p2 = a * b;
    assert(0 <= p2 <= 0xFFFF_FFFE_0000_0001) by (nonlinear_arith)
        requires
            p2 == a * b,
            0 <= a <= 0xFFFF_FFFF,
            0 <= b <= 0xFFFF_FFFF,
    ;
    lemma_fundamental_div_mod(p2, d32);
    lemma_div_is_ordered(0, p2, d32);
    lemma_div_is_ordered(p2, 0xFFFF_FFFE_0000_0001, d32);
    let p3 = sg(a) * b;
    assert(-0x8000_0000_0000_0000 < p3 < 0x8000_0000_0000_0000) by (nonlinear_arith)
        requires
            p3 == sg(a) * b,
            -0x8000_0000 <= sg(a) <= 0x7FFF_FFFF,
            0 <= b <= 0xFFFF_FFFF,
    ;
    lemma_signed_split(p3, spec_muldiv_value(OperationType::MulHighSignedUnsigned, a, b), lo);
}

/// The fixed answers of division: a zero divisor yields all ones for
/// the quotients and the dividend for the remainders, and the one
/// overflowing signed division wraps back to the minimum with a zero
/// remainder.
pub proof fn lemma_div_rem_edges(a: u32)
    ensures
        spec_muldiv_value(OperationType::Div, a, 0) == 0xFFFF_FFFFu32,
        spec_muldiv_value(OperationType::DivUnsigned, a, 0) == 0xFFFF_FFFFu32,
        spec_muldiv_value(OperationType::Remainder, a, 0) == a,
        spec_muldiv_value(OperationType::RemainderUnsigned, a, 0) == a,
        spec_muldiv_value(OperationType::Div, 0x8000_0000, 0xFFFF_FFFF) == 0x8000_0000u32,
        spec_muldiv_value(OperationType::Remainder, 0x8000_0000, 0xFFFF_FFFF) == 0u32,
{
}

/// The upper half of a value reduced modulo 2^64 is the value's upper
/// half reduced modulo 2^32.
proof fn lemma_hi_half(p: int)
    ensures
        (p % 0x1_0000_0000_0000_0000) / 0x1_0000_0000 == (p / 0x1_0000_0000) % 0x1_0000_0000,
{
    let d32: int = 0x1_0000_0000;
    let d64: int = 0x1_0000_0000_0000_0000;
    let q = p / d32;
    let r = p % d32;
    lemma_fundamental_div_mod(p, d32);
    let k = q / d32;
    let j = q % d32;
    lemma_fundamental_div_mod(q, d32);
    assert(p == k * d64 + (d32 * j + r)) by (nonlinear_arith)
        requires
            p == d32 * q + r,
            q == d32 * k + j,
            d32 == 0x1_0000_0000,
            d64 == 0x1_0000_0000_0000_0000,
    ;
    lemma_fundamental_div_mod_converse(p, d64, k, d32 * j + r);
    lemma_fundamental_div_mod_converse(d32 * j + r, d32, j, r);
}

} // verus!
