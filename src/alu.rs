use vstd::prelude::*;
use crate::instruction::Size;

verus! {

/// The four flags. `swap_sp` asks for the exception stack on dispatch.
#[derive(Clone, Copy, Debug, PartialEq, Eq, Structural)]
pub struct Flag {
    pub swap_sp: bool,
    pub interrupt: bool,
    pub carry: bool,
    pub zero: bool,
}

/// The arithmetic and logic operations, at a given size, of a destination
/// value `a` and a source value `b`.
#[derive(Clone, Copy, Debug, PartialEq, Eq, Structural)]
pub enum AluOp {
    Add,
    Inc,
    Sub,
    Dec,
    Cmp,
    Mul,
    Div,
    Rem,
    And,
    Or,
    Xor,
    Not,
    Sla,
    Sra,
    Srl,
    Rol,
    Ror,
    Bse,
    Bcl,
    Bts,
}

pub open spec fn width(size: Size) -> u32 {
    match size {
        Size::Byte => 8,
        Size::Half => 16,
        Size::Word => 32,
    }
}

pub open spec fn mask(size: Size) -> u32 {
    match size {
        Size::Byte => 0xFF,
        Size::Half => 0xFFFF,
        Size::Word => 0xFFFF_FFFF,
    }
}

/// 2 to the power of the width.
pub open spec fn modulus(size: Size) -> int {
    mask(size) as int + 1
}

/// The low `size` bits of `v`.
pub open spec fn trunc(size: Size, v: u32) -> u32 {
    v & mask(size)
}

/// A shift or bit index, taken modulo the width.
pub open spec fn shift_count(size: Size, b: u32) -> u32 {
    b % width(size)
}

pub open spec fn bit(v: u32, n: u32) -> bool {
    (v >> n) & 1 == 1
}

/// Whether the operation stores its result (compare and bit test only set
/// flags).
pub open spec fn stores(op: AluOp) -> bool {
    !(op is Cmp || op is Bts)
}

/// The value that the operation computes. The source of `inc` and `dec` is 1.
#[verifier::opaque]
pub open spec fn alu_value(op: AluOp, size: Size, a: u32, b: u32) -> u32 {
    let x = trunc(size, a);
    let y = trunc(size, b);
    let n = shift_count(size, b);
    let w = width(size);
    let m = mask(size);
    match op {
        AluOp::Add => ((x + y) % modulus(size)) as u32,
        AluOp::Inc => ((x + 1) % modulus(size)) as u32,
        AluOp::Sub | AluOp::Cmp => ((x - y) % modulus(size)) as u32,
        AluOp::Dec => ((x - 1) % modulus(size)) as u32,
        AluOp::Mul => ((x * y) % modulus(size)) as u32,
        AluOp::Div => (x / y) as u32,
        AluOp::Rem => (x % y) as u32,
        AluOp::And => x & y,
        AluOp::Or => x | y,
        AluOp::Xor => x ^ y,
        AluOp::Not => !x & m,
        AluOp::Sla => (x << n) & m,
        AluOp::Srl => x >> n,
        AluOp::Sra => if bit(x, (w - 1) as u32) {
            ((x >> n) | !(m >> n)) & m
        } else {
            x >> n
        },
        AluOp::Rol => if n == 0 {
            x
        } else {
            ((x << n) | (x >> ((w - n) as u32))) & m
        },
        AluOp::Ror => if n == 0 {
            x
        } else {
            ((x >> n) | (x << ((w - n) as u32))) & m
        },
        AluOp::Bse => x | (1u32 << n),
        AluOp::Bcl => x & !(1u32 << n),
        AluOp::Bts => x & (1u32 << n),
    }
}

/// The carry that the operation produces, where it touches the carry: an
/// unsigned overflow or borrow, or the last bit shifted or rotated out.
#[verifier::opaque]
pub open spec fn alu_carry(op: AluOp, size: Size, a: u32, b: u32) -> Option<bool> {
    let x = trunc(size, a);
    let y = trunc(size, b);
    let n = shift_count(size, b);
    let w = width(size);
    match op {
        AluOp::Add => Some(x + y >= modulus(size)),
        AluOp::Inc => Some(x + 1 >= modulus(size)),
        AluOp::Sub | AluOp::Cmp => Some(x < y),
        AluOp::Dec => Some(x < 1),
        AluOp::Mul => Some(x * y >= modulus(size)),
        AluOp::Sla | AluOp::Rol => Some(n > 0 && bit(x, (w - n) as u32)),
        AluOp::Sra | AluOp::Srl | AluOp::Ror => Some(n > 0 && bit(x, (n - 1) as u32)),
        _ => None,
    }
}

/// Whether the operation sets the zero flag from its value.
pub open spec fn sets_zero(op: AluOp) -> bool {
    !(op is Bse || op is Bcl)
}

/// The flags after the operation: zero from the value where the operation
/// sets it, carry where it produces one, the rest kept.
pub open spec fn alu_flags(op: AluOp, size: Size, a: u32, b: u32, flag: Flag) -> Flag {
    Flag {
        zero: if sets_zero(op) { alu_value(op, size, a, b) == 0 } else { flag.zero },
        carry: match alu_carry(op, size, a, b) {
            Some(c) => c,
            None => flag.carry,
        },
        ..flag
    }
}

/// Division and remainder by zero raise an exception instead.
pub open spec fn divides_by_zero(op: AluOp, size: Size, b: u32) -> bool {
    (op is Div || op is Rem) && trunc(size, b) == 0
}

pub fn size_mask(size: Size) -> (r: u32)
    ensures
        r == mask(size),
{
    match size {
        Size::Byte => 0xFF,
        Size::Half => 0xFFFF,
        Size::Word => 0xFFFF_FFFF,
    }
}

pub fn size_width(size: Size) -> (r: u32)
    ensures
        r == width(size),
        r == 8 || r == 16 || r == 32,
{
    match size {
        Size::Byte => 8,
        Size::Half => 16,
        Size::Word => 32,
    }
}

proof fn lemma_trunc_bound(size: Size, v: u32)
    ensures
        trunc(size, v) <= mask(size),
{
    let m = mask(size);
    assert(v & m <= m) by (bit_vector);
}

fn arith(op: AluOp, size: Size, a: u32, b: u32) -> (r: (u32, Option<bool>))
    requires
        op is Add || op is Inc || op is Sub || op is Dec || op is Cmp || op is Mul,
    ensures
        r == (alu_value(op, size, a, b), alu_carry(op, size, a, b)),
{
    reveal(alu_value);
    reveal(alu_carry);
    let m = size_mask(size);
    let x = a & m;
    let y = b & m;
    proof {
        lemma_trunc_bound(size, a);
        lemma_trunc_bound(size, b);
    }
    let md: u64 = m as u64 + 1;
    assert(md as int == modulus(size));
    match op {
        AluOp::Add => {
            let s: u64 = x as u64 + y as u64;
            ((s % md) as u32, Some(s >= md))
        },
        AluOp::Inc => {
            let s: u64 = x as u64 + 1;
            ((s % md) as u32, Some(s >= md))
        },
        AluOp::Mul => {
            proof {
                assert(x * y <= 0xFFFF_FFFF * 0xFFFF_FFFF) by (nonlinear_arith)
                    requires x <= 0xFFFF_FFFF, y <= 0xFFFF_FFFF;
            }
            let p: u64 = x as u64 * y as u64;
            ((p % md) as u32, Some(p >= md))
        },
        AluOp::Dec => {
            let d: u64 = if x >= 1 { (x - 1) as u64 } else { md - 1 };
            proof {
                if x < 1 {
                    assert((x - 1) % modulus(size) == modulus(size) - 1) by (nonlinear_arith)
                        requires x == 0, modulus(size) > 1;
                } else {
                    assert((x - 1) % modulus(size) == x - 1) by (nonlinear_arith)
                        requires 1 <= x, x < modulus(size);
                }
            }
            (d as u32, Some(x < 1))
        },
        _ => {
            let d: u64 = if x >= y { (x - y) as u64 } else { md - (y - x) as u64 };
            proof {
                if x < y {
                    assert((x - y) % modulus(size) == modulus(size) - (y - x)) by (nonlinear_arith)
                        requires x < y, y < modulus(size), modulus(size) > 0;
                } else {
                    assert((x - y) % modulus(size) == x - y) by (nonlinear_arith)
                        requires y <= x, x < modulus(size);
                }
            }
            (d as u32, Some(x < y))
        },
    }
}

fn shift(op: AluOp, size: Size, a: u32, b: u32) -> (r: (u32, Option<bool>))
    requires
        op is Sla || op is Sra || op is Srl || op is Rol || op is Ror,
    ensures
        r == (alu_value(op, size, a, b), alu_carry(op, size, a, b)),
{
    reveal(alu_value);
    reveal(alu_carry);
    let m = size_mask(size);
    let w = size_width(size);
    let x = a & m;
    let n = b % w;
    match op {
        AluOp::Sla => ((x << n) & m, Some(n > 0 && (x >> (w - n)) & 1 == 1)),
        AluOp::Srl => (x >> n, Some(n > 0 && (x >> (n - 1)) & 1 == 1)),
        AluOp::Sra => {
            let v = if (x >> (w - 1)) & 1 == 1 { ((x >> n) | !(m >> n)) & m } else { x >> n };
            (v, Some(n > 0 && (x >> (n - 1)) & 1 == 1))
        },
        AluOp::Rol => {
            let v = if n == 0 { x } else { ((x << n) | (x >> (w - n))) & m };
            (v, Some(n > 0 && (x >> (w - n)) & 1 == 1))
        },
        _ => {
            let v = if n == 0 { x } else { ((x >> n) | (x << (w - n))) & m };
            (v, Some(n > 0 && (x >> (n - 1)) & 1 == 1))
        },
    }
}

fn logic(op: AluOp, size: Size, a: u32, b: u32) -> (r: (u32, Option<bool>))
    requires
        op is And || op is Or || op is Xor || op is Not || op is Bse || op is Bcl || op is Bts,
    ensures
        r == (alu_value(op, size, a, b), alu_carry(op, size, a, b)),
{
    reveal(alu_value);
    reveal(alu_carry);
    let m = size_mask(size);
    let w = size_width(size);
    let x = a & m;
    let y = b & m;
    let n = b % w;
    match op {
        AluOp::And => (x & y, None),
        AluOp::Or => (x | y, None),
        AluOp::Xor => (x ^ y, None),
        AluOp::Not => (!x & m, None),
        AluOp::Bse => (x | (1u32 << n), None),
        AluOp::Bcl => (x & !(1u32 << n), None),
        _ => (x & (1u32 << n), None),
    }
}

/// The value and the flags of `op` at `size` on destination `a` and source
/// `b`; `None` for a division or remainder by zero.
pub fn compute(op: AluOp, size: Size, a: u32, b: u32, flag: Flag) -> (r: Option<(u32, Flag)>)
    ensures
        divides_by_zero(op, size, b) ==> r is None,
        !divides_by_zero(op, size, b) ==> r == Some((alu_value(op, size, a, b), alu_flags(op, size, a, b, flag))),
{
    reveal(alu_value);
    reveal(alu_carry);
    let m = size_mask(size);
    let x = a & m;
    let y = b & m;
    let (value, carry): (u32, Option<bool>) = match op {
        AluOp::Div => {
            if y == 0 {
                return None;
            }
            (x / y, None)
        },
        AluOp::Rem => {
            if y == 0 {
                return None;
            }
            (x % y, None)
        },
        AluOp::Add | AluOp::Inc | AluOp::Sub | AluOp::Dec | AluOp::Cmp | AluOp::Mul => arith(op, size, a, b),
        AluOp::Sla | AluOp::Sra | AluOp::Srl | AluOp::Rol | AluOp::Ror => shift(op, size, a, b),
        _ => logic(op, size, a, b),
    };
    let zero = match op {
        AluOp::Bse | AluOp::Bcl => flag.zero,
        _ => value == 0,
    };
    let carry = match carry {
        Some(c) => c,
        None => flag.carry,
    };
    Some((value, Flag { zero, carry, ..flag }))
}

} // verus!
