use vstd::prelude::*;

verus! {

/// Operand width.
#[derive(Clone, Copy, Debug, PartialEq, Eq, Structural)]
pub enum Size {
    Byte,
    Half,
    Word,
}

/// Where an operand comes from. Immediates carry their width in the variant;
/// pointers carry the width of the access through them.
#[derive(Clone, Copy, Debug, PartialEq, Eq, Structural)]
pub enum Operand {
    Register,
    RegisterPtr(Size),
    Immediate8,
    Immediate16,
    Immediate32,
    ImmediatePtr(Size),
}

#[derive(Clone, Copy, Debug, PartialEq, Eq, Structural)]
pub enum Condition {
    Always,
    Zero,
    NotZero,
    Carry,
    NotCarry,
    GreaterThan,
    LessThanEqualTo,
}

/// A decoded opcode half: operation, size, condition, destination, source.
#[derive(Clone, Copy, Debug, PartialEq, Eq, Structural)]
pub enum Instruction {
    Nop(),
    Halt(Condition),
    Brk(Condition),
    Add(Size, Condition, Operand, Operand),
    Inc(Size, Condition, Operand),
    Sub(Size, Condition, Operand, Operand),
    Dec(Size, Condition, Operand),
    Mul(Size, Condition, Operand, Operand),
    Div(Size, Condition, Operand, Operand),
    Rem(Size, Condition, Operand, Operand),
    And(Size, Condition, Operand, Operand),
    Or(Size, Condition, Operand, Operand),
    Xor(Size, Condition, Operand, Operand),
    Not(Size, Condition, Operand),
    Sla(Size, Condition, Operand, Operand),
    Rol(Size, Condition, Operand, Operand),
    Sra(Size, Condition, Operand, Operand),
    Srl(Size, Condition, Operand, Operand),
    Ror(Size, Condition, Operand, Operand),
    Bse(Size, Condition, Operand, Operand),
    Bcl(Size, Condition, Operand, Operand),
    Bts(Size, Condition, Operand, Operand),
    Cmp(Size, Condition, Operand, Operand),
    Mov(Size, Condition, Operand, Operand),
    Movz(Size, Condition, Operand, Operand),
    Jmp(Condition, Operand),
    Call(Condition, Operand),
    Loop(Condition, Operand),
    Rjmp(Condition, Operand),
    Rcall(Condition, Operand),
    Rloop(Condition, Operand),
    Rta(Condition, Operand, Operand),
    Push(Size, Condition, Operand),
    Pop(Size, Condition, Operand),
    Ret(Condition),
    Reti(Condition),
    In(Condition, Operand, Operand),
    Out(Condition, Operand, Operand),
    Ise(Condition),
    Icl(Condition),
    Int(Condition, Operand),
    Mse(Condition),
    Mcl(Condition),
    Tlb(Condition, Operand),
    Flp(Condition, Operand),
}

/// Bits 14..15: the size field.
pub open spec fn size_field(half: u16) -> Option<Size> {
    let f = (half >> 14) & 3;
    if f == 0 {
        Some(Size::Byte)
    } else if f == 1 {
        Some(Size::Half)
    } else if f == 2 {
        Some(Size::Word)
    } else {
        None
    }
}

/// Bits 0..1: the source kind, at the given size.
pub open spec fn source_field(half: u16, size: Size) -> Operand {
    let f = half & 3;
    if f == 0 {
        Operand::Register
    } else if f == 1 {
        Operand::RegisterPtr(size)
    } else if f == 2 {
        match size {
            Size::Byte => Operand::Immediate8,
            Size::Half => Operand::Immediate16,
            Size::Word => Operand::Immediate32,
        }
    } else {
        Operand::ImmediatePtr(size)
    }
}

/// Bits 2..3: the destination kind; an immediate cannot be one.
pub open spec fn destination_field(half: u16, size: Size) -> Option<Operand> {
    let f = (half >> 2) & 3;
    if f == 0 {
        Some(Operand::Register)
    } else if f == 1 {
        Some(Operand::RegisterPtr(size))
    } else if f == 3 {
        Some(Operand::ImmediatePtr(size))
    } else {
        None
    }
}

/// Bits 4..7: the condition; the reserved bit 7 must be clear.
pub open spec fn condition_field(half: u16) -> Option<Condition> {
    let f = (half >> 4) & 0xF;
    if f == 0 {
        Some(Condition::Always)
    } else if f == 1 {
        Some(Condition::Zero)
    } else if f == 2 {
        Some(Condition::NotZero)
    } else if f == 3 {
        Some(Condition::Carry)
    } else if f == 4 {
        Some(Condition::NotCarry)
    } else if f == 5 {
        Some(Condition::GreaterThan)
    } else if f == 6 {
        Some(Condition::LessThanEqualTo)
    } else {
        None
    }
}

/// The operation table, bits 8..13.
pub open spec fn operation(opcode: u16, size: Size, condition: Condition, destination: Operand, source: Operand) -> Option<Instruction> {
    match opcode {
        0x00 => Some(Instruction::Nop()),
        0x10 => Some(Instruction::Halt(condition)),
        0x20 => Some(Instruction::Brk(condition)),
        0x01 => Some(Instruction::Add(size, condition, destination, source)),
        0x11 => Some(Instruction::Inc(size, condition, source)),
        0x21 => Some(Instruction::Sub(size, condition, destination, source)),
        0x31 => Some(Instruction::Dec(size, condition, source)),
        0x02 => Some(Instruction::Mul(size, condition, destination, source)),
        0x22 => Some(Instruction::Div(size, condition, destination, source)),
        0x32 => Some(Instruction::Rem(size, condition, destination, source)),
        0x03 => Some(Instruction::And(size, condition, destination, source)),
        0x13 => Some(Instruction::Or(size, condition, destination, source)),
        0x23 => Some(Instruction::Xor(size, condition, destination, source)),
        0x33 => Some(Instruction::Not(size, condition, source)),
        0x04 => Some(Instruction::Sla(size, condition, destination, source)),
        0x24 => Some(Instruction::Rol(size, condition, destination, source)),
        0x05 => Some(Instruction::Sra(size, condition, destination, source)),
        0x15 => Some(Instruction::Srl(size, condition, destination, source)),
        0x25 => Some(Instruction::Ror(size, condition, destination, source)),
        0x06 => Some(Instruction::Bse(size, condition, destination, source)),
        0x16 => Some(Instruction::Bcl(size, condition, destination, source)),
        0x26 => Some(Instruction::Bts(size, condition, destination, source)),
        0x07 => Some(Instruction::Cmp(size, condition, destination, source)),
        0x17 => Some(Instruction::Mov(size, condition, destination, source)),
        0x27 => Some(Instruction::Movz(size, condition, destination, source)),
        0x08 => Some(Instruction::Jmp(condition, source)),
        0x18 => Some(Instruction::Call(condition, source)),
        0x28 => Some(Instruction::Loop(condition, source)),
        0x09 => Some(Instruction::Rjmp(condition, source)),
        0x19 => Some(Instruction::Rcall(condition, source)),
        0x29 => Some(Instruction::Rloop(condition, source)),
        0x39 => Some(Instruction::Rta(condition, destination, source)),
        0x0A => Some(Instruction::Push(size, condition, source)),
        0x1A => Some(Instruction::Pop(size, condition, source)),
        0x2A => Some(Instruction::Ret(condition)),
        0x3A => Some(Instruction::Reti(condition)),
        0x0B => Some(Instruction::In(condition, destination, source)),
        0x1B => Some(Instruction::Out(condition, destination, source)),
        0x0C => Some(Instruction::Ise(condition)),
        0x1C => Some(Instruction::Icl(condition)),
        0x2C => Some(Instruction::Int(condition, source)),
        0x0D => Some(Instruction::Mse(condition)),
        0x1D => Some(Instruction::Mcl(condition)),
        0x2D => Some(Instruction::Tlb(condition, source)),
        0x3D => Some(Instruction::Flp(condition, source)),
        _ => None,
    }
}

/// What an opcode half decodes to; `None` where any field is undefined.
pub open spec fn decode(half: u16) -> Option<Instruction> {
    match (size_field(half), condition_field(half)) {
        (Some(size), Some(condition)) => match destination_field(half, size) {
            Some(destination) => operation((half >> 8) & 0x3F, size, condition, destination, source_field(half, size)),
            None => None,
        },
        _ => None,
    }
}

fn build(opcode: u16, size: Size, condition: Condition, destination: Operand, source: Operand) -> (r: Option<Instruction>)
    ensures
        r == operation(opcode, size, condition, destination, source),
{
    match opcode {
        0x00 => Some(Instruction::Nop()),
        0x10 => Some(Instruction::Halt(condition)),
        0x20 => Some(Instruction::Brk(condition)),
        0x01 => Some(Instruction::Add(size, condition, destination, source)),
        0x11 => Some(Instruction::Inc(size, condition, source)),
        0x21 => Some(Instruction::Sub(size, condition, destination, source)),
        0x31 => Some(Instruction::Dec(size, condition, source)),
        0x02 => Some(Instruction::Mul(size, condition, destination, source)),
        0x22 => Some(Instruction::Div(size, condition, destination, source)),
        0x32 => Some(Instruction::Rem(size, condition, destination, source)),
        0x03 => Some(Instruction::And(size, condition, destination, source)),
        0x13 => Some(Instruction::Or(size, condition, destination, source)),
        0x23 => Some(Instruction::Xor(size, condition, destination, source)),
        0x33 => Some(Instruction::Not(size, condition, source)),
        0x04 => Some(Instruction::Sla(size, condition, destination, source)),
        0x24 => Some(Instruction::Rol(size, condition, destination, source)),
        0x05 => Some(Instruction::Sra(size, condition, destination, source)),
        0x15 => Some(Instruction::Srl(size, condition, destination, source)),
        0x25 => Some(Instruction::Ror(size, condition, destination, source)),
        0x06 => Some(Instruction::Bse(size, condition, destination, source)),
        0x16 => Some(Instruction::Bcl(size, condition, destination, source)),
        0x26 => Some(Instruction::Bts(size, condition, destination, source)),
        0x07 => Some(Instruction::Cmp(size, condition, destination, source)),
        0x17 => Some(Instruction::Mov(size, condition, destination, source)),
        0x27 => Some(Instruction::Movz(size, condition, destination, source)),
        0x08 => Some(Instruction::Jmp(condition, source)),
        0x18 => Some(Instruction::Call(condition, source)),
        0x28 => Some(Instruction::Loop(condition, source)),
        0x09 => Some(Instruction::Rjmp(condition, source)),
        0x19 => Some(Instruction::Rcall(condition, source)),
        0x29 => Some(Instruction::Rloop(condition, source)),
        0x39 => Some(Instruction::Rta(condition, destination, source)),
        0x0A => Some(Instruction::Push(size, condition, source)),
        0x1A => Some(Instruction::Pop(size, condition, source)),
        0x2A => Some(Instruction::Ret(condition)),
        0x3A => Some(Instruction::Reti(condition)),
        0x0B => Some(Instruction::In(condition, destination, source)),
        0x1B => Some(Instruction::Out(condition, destination, source)),
        0x0C => Some(Instruction::Ise(condition)),
        0x1C => Some(Instruction::Icl(condition)),
        0x2C => Some(Instruction::Int(condition, source)),
        0x0D => Some(Instruction::Mse(condition)),
        0x1D => Some(Instruction::Mcl(condition)),
        0x2D => Some(Instruction::Tlb(condition, source)),
        0x3D => Some(Instruction::Flp(condition, source)),
        _ => None,
    }
}

impl Instruction {
    pub fn from_half(half: u16) -> (r: Option<Instruction>)
        ensures
            r == decode(half),
    {
        let size = match (half >> 14) & 3 {
            0 => Size::Byte,
            1 => Size::Half,
            2 => Size::Word,
            _ => return None,
        };
        let condition = match (half >> 4) & 0xF {
            0 => Condition::Always,
            1 => Condition::Zero,
            2 => Condition::NotZero,
            3 => Condition::Carry,
            4 => Condition::NotCarry,
            5 => Condition::GreaterThan,
            6 => Condition::LessThanEqualTo,
            _ => return None,
        };
        let source = match half & 3 {
            0 => Operand::Register,
            1 => Operand::RegisterPtr(size),
            2 => match size {
                Size::Byte => Operand::Immediate8,
                Size::Half => Operand::Immediate16,
                Size::Word => Operand::Immediate32,
            },
            _ => Operand::ImmediatePtr(size),
        };
        let destination = match (half >> 2) & 3 {
            0 => Operand::Register,
            1 => Operand::RegisterPtr(size),
            3 => Operand::ImmediatePtr(size),
            _ => return None,
        };
        build((half >> 8) & 0x3F, size, condition, destination, source)
    }
}

} // verus!
