use vstd::prelude::*;
use crate::alu::{alu_flags, alu_value, compute, divides_by_zero, stores, trunc, AluOp, Flag};
use crate::bus::{Bus, IoView};
use crate::instruction::{decode, Condition, Instruction, Operand, Size};
use crate::memory::{wadd, MemoryView};

verus! {

/// A recoverable fault, delivered to the guest through the exception vectors.
#[derive(Clone, Copy, Debug, PartialEq, Eq, Structural)]
pub enum Exception {
    DivideByZero,
    InvalidOpcode(u32),
    PageFaultRead(u32),
    PageFaultWrite(u32),
}

/// An event that ends the machine: the guest did something that firmware
/// written for this machine never does.
#[derive(Clone, Copy, Debug, PartialEq, Eq, Structural)]
pub enum FatalError {
    /// A write reached the ROM at this physical address.
    RomWrite(u32),
    /// An access with the MMU off reached no RAM or ROM at this address.
    Unmapped(u32),
    /// A transfer named a disk slot with nothing mounted in it.
    DiskNotInserted(u8),
    /// A transfer sought this sector, which starts beyond the end of the disk.
    DiskSeek(u8, u32),
    /// The sector buffer at this offset does not fit in RAM.
    DiskBuffer(u32),
}

/// What reaches the processor from outside: a fault, or a device's request
/// on an interrupt vector.
#[derive(Clone, Copy, Debug, PartialEq, Eq, Structural)]
pub enum Interrupt {
    Exception(Exception),
    Request(u8),
}

/// Where an instruction's result goes.
#[derive(Clone, Copy, Debug, PartialEq, Eq, Structural)]
pub enum Location {
    Register(u8),
    Memory(u32),
}

pub const REGISTER_SP: u8 = 32;
pub const REGISTER_ESP: u8 = 33;
pub const REGISTER_FP: u8 = 34;

/// The flags packed into the byte that interrupt entry pushes.
pub open spec fn flag_byte(f: Flag) -> u8 {
    ((if f.swap_sp { 8u8 } else { 0u8 }) | (if f.interrupt { 4u8 } else { 0u8 }) | (if f.carry { 2u8 } else { 0u8 }) | (if f.zero {
        1u8
    } else {
        0u8
    })) as u8
}

pub open spec fn flag_of_byte(b: u8) -> Flag {
    Flag { swap_sp: b & 8 != 0, interrupt: b & 4 != 0, carry: b & 2 != 0, zero: b & 1 != 0 }
}

pub open spec fn condition_holds(f: Flag, c: Condition) -> bool {
    match c {
        Condition::Always => true,
        Condition::Zero => f.zero,
        Condition::NotZero => !f.zero,
        Condition::Carry => f.carry,
        Condition::NotCarry => !f.carry,
        Condition::GreaterThan => !f.carry && !f.zero,
        Condition::LessThanEqualTo => f.carry || f.zero,
    }
}

/// The vector number and the pushed operand of an exception.
pub open spec fn exception_vector(e: Exception) -> (u8, Option<u32>) {
    match e {
        Exception::DivideByZero => (0, None),
        Exception::InvalidOpcode(op) => (1, Some(op)),
        Exception::PageFaultRead(a) => (2, Some(a)),
        Exception::PageFaultWrite(a) => (3, Some(a)),
    }
}

pub open spec fn size_bytes(size: Size) -> u32 {
    match size {
        Size::Byte => 1,
        Size::Half => 2,
        Size::Word => 4,
    }
}

/// The processor and everything it reaches, as the contracts speak of it.
pub struct CpuView {
    pub ip: u32,
    pub sp: u32,
    pub esp: u32,
    pub fp: u32,
    pub regs: Seq<u32>,
    pub flag: Flag,
    pub halted: bool,
    pub breakpoint: bool,
    pub mem: MemoryView,
    pub io: IoView,
    pub next_interrupt: Option<u8>,
    pub next_soft_interrupt: Option<u8>,
    pub next_exception: Option<u8>,
    pub next_exception_operand: Option<u32>,
}

impl CpuView {
    pub open spec fn reg(self, r: u8) -> u32 {
        if r < 32 {
            self.regs[r as int]
        } else if r == REGISTER_SP {
            self.sp
        } else if r == REGISTER_ESP {
            self.esp
        } else {
            self.fp
        }
    }

    pub open spec fn set_reg(self, r: u8, v: u32) -> CpuView {
        if r < 32 {
            CpuView { regs: self.regs.update(r as int, v), ..self }
        } else if r == REGISTER_SP {
            CpuView { sp: v, ..self }
        } else if r == REGISTER_ESP {
            CpuView { esp: v, ..self }
        } else {
            CpuView { fp: v, ..self }
        }
    }

    pub open spec fn with_mem(self, m: MemoryView) -> CpuView {
        CpuView { mem: m, ..self }
    }

    pub open spec fn rd8(self, a: u32) -> (CpuView, Option<u8>) {
        (self.with_mem(self.mem.read8(a).0), self.mem.read8(a).1)
    }

    pub open spec fn rd16(self, a: u32) -> (CpuView, Option<u16>) {
        (self.with_mem(self.mem.read16(a).0), self.mem.read16(a).1)
    }

    pub open spec fn rd32(self, a: u32) -> (CpuView, Option<u32>) {
        (self.with_mem(self.mem.read32(a).0), self.mem.read32(a).1)
    }

    /// A read of `size` bytes at `a`, widened to a word.
    #[verifier::opaque]
    pub open spec fn rd(self, size: Size, a: u32) -> (CpuView, Option<u32>) {
        match size {
            Size::Byte => (self.rd8(a).0, match self.rd8(a).1 { Some(v) => Some(v as u32), None => None }),
            Size::Half => (self.rd16(a).0, match self.rd16(a).1 { Some(v) => Some(v as u32), None => None }),
            Size::Word => self.rd32(a),
        }
    }

    /// A write of the low `size` bytes of `v` at `a`.
    #[verifier::opaque]
    pub open spec fn wr(self, size: Size, a: u32, v: u32) -> (CpuView, bool) {
        match size {
            Size::Byte => (self.with_mem(self.mem.write8(a, v as u8).0), self.mem.write8(a, v as u8).1),
            Size::Half => (self.with_mem(self.mem.write16(a, v as u16).0), self.mem.write16(a, v as u16).1),
            Size::Word => (self.with_mem(self.mem.write32(a, v).0), self.mem.write32(a, v).1),
        }
    }

    /// A push: the stack pointer moves down only when the write succeeds.
    #[verifier::opaque]
    pub open spec fn push(self, size: Size, v: u32) -> (CpuView, bool) {
        let a = wadd(self.sp, -(size_bytes(size) as int));
        let (s, ok) = self.wr(size, a, v);
        (if ok { CpuView { sp: a, ..s } } else { s }, ok)
    }

    #[verifier::opaque]
    pub open spec fn pop(self, size: Size) -> (CpuView, Option<u32>) {
        let (s, r) = self.rd(size, self.sp);
        match r {
            Some(v) => (CpuView { sp: wadd(self.sp, size_bytes(size) as int), ..s }, Some(v)),
            None => (s, None),
        }
    }

    /// Queues an exception for delivery at the start of the next step.
    pub open spec fn raise(self, e: Exception) -> CpuView {
        CpuView { next_exception: Some(exception_vector(e).0), next_exception_operand: exception_vector(e).1, ..self }
    }

    /// The operand of kind `kind` whose bytes start at `ip + 2`: its value
    /// and the offset just past it. A register number above 34 is no
    /// register: it raises an invalid-opcode exception.
    #[verifier::opaque]
    pub open spec fn source(self, kind: Operand, opcode: u16) -> (CpuView, Option<(u32, u32)>) {
        let at = wadd(self.ip, 2);
        match kind {
            Operand::Register => {
                let (s, r) = self.rd8(at);
                match r {
                    None => (s, None),
                    Some(id) => if id <= REGISTER_FP {
                        (s, Some((s.reg(id), 3)))
                    } else {
                        (s.raise(Exception::InvalidOpcode(opcode as u32)), None)
                    },
                }
            },
            Operand::RegisterPtr(size) => {
                let (s, r) = self.rd8(at);
                match r {
                    None => (s, None),
                    Some(id) => if id <= REGISTER_FP {
                        let (s2, v) = s.rd(size, s.reg(id));
                        match v {
                            None => (s2, None),
                            Some(v) => (s2, Some((v, 3))),
                        }
                    } else {
                        (s.raise(Exception::InvalidOpcode(opcode as u32)), None)
                    },
                }
            },
            Operand::Immediate8 => {
                let (s, r) = self.rd8(at);
                match r {
                    None => (s, None),
                    Some(v) => (s, Some((v as u32, 3))),
                }
            },
            Operand::Immediate16 => {
                let (s, r) = self.rd16(at);
                match r {
                    None => (s, None),
                    Some(v) => (s, Some((v as u32, 4))),
                }
            },
            Operand::Immediate32 => {
                let (s, r) = self.rd32(at);
                match r {
                    None => (s, None),
                    Some(v) => (s, Some((v, 6))),
                }
            },
            Operand::ImmediatePtr(size) => {
                let (s, r) = self.rd32(at);
                match r {
                    None => (s, None),
                    Some(p) => {
                        let (s2, v) = s.rd(size, p);
                        match v {
                            None => (s2, None),
                            Some(v) => (s2, Some((v, 6))),
                        }
                    },
                }
            },
        }
    }

    /// The destination of kind `kind` whose bytes start at `ip + off`: where
    /// it is, and the offset just past it. An immediate is no destination.
    #[verifier::opaque]
    pub open spec fn destination(self, kind: Operand, off: u32, opcode: u16) -> (CpuView, Option<(Location, u32)>) {
        let at = wadd(self.ip, off as int);
        match kind {
            Operand::Register => {
                let (s, r) = self.rd8(at);
                match r {
                    None => (s, None),
                    Some(id) => if id <= REGISTER_FP {
                        (s, Some((Location::Register(id), (off + 1) as u32)))
                    } else {
                        (s.raise(Exception::InvalidOpcode(opcode as u32)), None)
                    },
                }
            },
            Operand::RegisterPtr(_) => {
                let (s, r) = self.rd8(at);
                match r {
                    None => (s, None),
                    Some(id) => if id <= REGISTER_FP {
                        (s, Some((Location::Memory(s.reg(id)), (off + 1) as u32)))
                    } else {
                        (s.raise(Exception::InvalidOpcode(opcode as u32)), None)
                    },
                }
            },
            Operand::ImmediatePtr(_) => {
                let (s, r) = self.rd32(at);
                match r {
                    None => (s, None),
                    Some(p) => (s, Some((Location::Memory(p), (off + 4) as u32))),
                }
            },
            _ => (self.raise(Exception::InvalidOpcode(opcode as u32)), None),
        }
    }

    /// The low `size` bits held at `loc`.
    #[verifier::opaque]
    pub open spec fn load(self, loc: Location, size: Size) -> (CpuView, Option<u32>) {
        match loc {
            Location::Register(r) => (self, Some(trunc(size, self.reg(r)))),
            Location::Memory(a) => self.rd(size, a),
        }
    }

    /// Stores the low `size` bits of `v` at `loc`. A register keeps its upper
    /// bits unless `zero_extend`.
    #[verifier::opaque]
    pub open spec fn store(self, loc: Location, size: Size, v: u32, zero_extend: bool) -> (CpuView, bool) {
        match loc {
            Location::Register(r) => {
                let m = crate::alu::mask(size);
                let w = if zero_extend { v & m } else { (self.reg(r) & !m) | (v & m) };
                (self.set_reg(r, w), true)
            },
            Location::Memory(a) => self.wr(size, a, v),
        }
    }

    /// The address `off` bytes past the current instruction's start.
    pub open spec fn after(self, off: u32) -> u32 {
        wadd(self.ip, off as int)
    }

    /// An arithmetic or logic operation from source `src` into `dst`.
    #[verifier::opaque]
    pub open spec fn exec_alu(self, op: AluOp, size: Size, c: Condition, dst: Operand, src: Operand, opcode: u16) -> (CpuView, Option<u32>) {
        let (s, rs) = self.source(src, opcode);
        match rs {
            None => (s, None),
            Some((b, off)) => s.exec_alu_into(op, size, c, dst, off, b, opcode),
        }
    }

    /// The part of an operation after its source value `b` is known: the
    /// destination's bytes start at offset `off`. When the condition fails
    /// nothing but the operand fetches happens.
    #[verifier::opaque]
    pub open spec fn exec_alu_into(self, op: AluOp, size: Size, c: Condition, dst: Operand, off: u32, b: u32, opcode: u16) -> (CpuView, Option<u32>) {
        let (s, rd) = self.destination(dst, off, opcode);
        match rd {
            None => (s, None),
            Some((loc, next)) => if !condition_holds(s.flag, c) {
                (s, Some(s.after(next)))
            } else {
                s.alu_at(op, size, loc, next, b)
            },
        }
    }

    /// The operation carried out on the destination `loc`, with the
    /// instruction ending at offset `next`.
    #[verifier::opaque]
    pub open spec fn alu_at(self, op: AluOp, size: Size, loc: Location, next: u32, b: u32) -> (CpuView, Option<u32>) {
        let (s2, ra) = self.load(loc, size);
        match ra {
            None => (s2, None),
            Some(a) => if divides_by_zero(op, size, b) {
                (s2.raise(Exception::DivideByZero), None)
            } else {
                let f = alu_flags(op, size, a, b, s2.flag);
                if stores(op) {
                    let (s3, ok) = s2.store(loc, size, alu_value(op, size, a, b), false);
                    if ok {
                        (CpuView { flag: f, ..s3 }, Some(s3.after(next)))
                    } else {
                        (s3, None)
                    }
                } else {
                    (CpuView { flag: f, ..s2 }, Some(s2.after(next)))
                }
            },
        }
    }

    /// `mov` and `movz`.
    #[verifier::opaque]
    pub open spec fn exec_mov(self, size: Size, c: Condition, dst: Operand, src: Operand, zero_extend: bool, opcode: u16) -> (CpuView, Option<u32>) {
        let (s, rs) = self.source(src, opcode);
        match rs {
            None => (s, None),
            Some((b, off)) => {
                let (s2, rd) = s.destination(dst, off, opcode);
                match rd {
                    None => (s2, None),
                    Some((loc, next)) => if !condition_holds(s2.flag, c) {
                        (s2, Some(s2.after(next)))
                    } else {
                        let (s3, ok) = s2.store(loc, size, b, zero_extend);
                        (s3, if ok { Some(s3.after(next)) } else { None })
                    },
                }
            },
        }
    }

    /// Jumps, calls and loops, absolute or relative to the instruction.
    /// A loop counts `r31` down whether or not its condition holds.
    #[verifier::opaque]
    pub open spec fn exec_branch(self, c: Condition, src: Operand, relative: bool, call: bool, looping: bool, opcode: u16) -> (CpuView, Option<u32>) {
        let (s, rs) = self.source(src, opcode);
        match rs {
            None => (s, None),
            Some((b, off)) => {
                let fall = s.after(off);
                let target = if relative { wadd(s.ip, b as int) } else { b };
                let s1 = if looping { s.set_reg(31, wadd(s.reg(31), -1)) } else { s };
                let taken = condition_holds(s1.flag, c) && (!looping || s1.reg(31) != 0);
                if !taken {
                    (s1, Some(fall))
                } else if call {
                    let (s2, ok) = s1.push(Size::Word, fall);
                    (s2, if ok { Some(target) } else { None })
                } else {
                    (s1, Some(target))
                }
            },
        }
    }

    /// `rta`: the address `ip + src` into `dst`; a pointer destination is
    /// itself relative to `ip`.
    #[verifier::opaque]
    pub open spec fn exec_rta(self, c: Condition, dst: Operand, src: Operand, opcode: u16) -> (CpuView, Option<u32>) {
        let (s, rs) = self.source(src, opcode);
        match rs {
            None => (s, None),
            Some((b, off)) => {
                let (s2, rd) = s.destination(dst, off, opcode);
                match rd {
                    None => (s2, None),
                    Some((loc, next)) => if !condition_holds(s2.flag, c) {
                        (s2, Some(s2.after(next)))
                    } else {
                        s2.rta_at(loc, next, b)
                    },
                }
            },
        }
    }

    /// `ip + b` stored at `loc`, a memory location taken relative to `ip`.
    #[verifier::opaque]
    pub open spec fn rta_at(self, loc: Location, next: u32, b: u32) -> (CpuView, Option<u32>) {
        let target = match loc {
            Location::Register(r) => Location::Register(r),
            Location::Memory(a) => Location::Memory(wadd(self.ip, a as int)),
        };
        let (s3, ok) = self.store(target, Size::Word, wadd(self.ip, b as int), false);
        (s3, if ok { Some(s3.after(next)) } else { None })
    }

    #[verifier::opaque]
    pub open spec fn exec_push(self, size: Size, c: Condition, src: Operand, opcode: u16) -> (CpuView, Option<u32>) {
        let (s, rs) = self.source(src, opcode);
        match rs {
            None => (s, None),
            Some((b, off)) => if !condition_holds(s.flag, c) {
                (s, Some(s.after(off)))
            } else {
                let (s2, ok) = s.push(size, b);
                (s2, if ok { Some(s2.after(off)) } else { None })
            },
        }
    }

    #[verifier::opaque]
    pub open spec fn exec_pop(self, size: Size, c: Condition, dst: Operand, opcode: u16) -> (CpuView, Option<u32>) {
        let (s, rd) = self.destination(dst, 2, opcode);
        match rd {
            None => (s, None),
            Some((loc, next)) => if !condition_holds(s.flag, c) {
                (s, Some(s.after(next)))
            } else {
                let (s2, v) = s.pop(size);
                match v {
                    None => (s2, None),
                    Some(v) => {
                        let (s3, ok) = s2.store(loc, size, v, false);
                        (s3, if ok { Some(s3.after(next)) } else { None })
                    },
                }
            },
        }
    }

    /// `reti`: pops the flag byte and the return address, and the old stack
    /// pointer when the popped flags ask for the stack swap; the flags are
    /// restored last.
    #[verifier::opaque]
    pub open spec fn exec_reti(self, c: Condition) -> (CpuView, Option<u32>) {
        if !condition_holds(self.flag, c) {
            (self, Some(self.after(2)))
        } else {
            let (s1, fb) = self.pop(Size::Byte);
            match fb {
                None => (s1, None),
                Some(fb) => {
                    let (s2, ip) = s1.pop(Size::Word);
                    match ip {
                        None => (s2, None),
                        Some(ip) => {
                            let f = flag_of_byte(fb as u8);
                            if f.swap_sp {
                                let (s3, sp) = s2.pop(Size::Word);
                                match sp {
                                    None => (s3, None),
                                    Some(sp) => (CpuView { sp, flag: f, ..s3 }, Some(ip)),
                                }
                            } else {
                                (CpuView { flag: f, ..s2 }, Some(ip))
                            }
                        },
                    }
                },
            }
        }
    }

    /// `in`: the port named by the source, read into the destination.
    #[verifier::opaque]
    pub open spec fn exec_in(self, c: Condition, dst: Operand, src: Operand, opcode: u16) -> (CpuView, Option<u32>) {
        let (s, rs) = self.source(src, opcode);
        match rs {
            None => (s, None),
            Some((port, off)) => {
                let (s2, rd) = s.destination(dst, off, opcode);
                match rd {
                    None => (s2, None),
                    Some((loc, next)) => if !condition_holds(s2.flag, c) {
                        (s2, Some(s2.after(next)))
                    } else {
                        let (io, v) = s2.io.io_read(port);
                        let (s3, ok) = CpuView { io, ..s2 }.store(loc, Size::Word, v, false);
                        (s3, if ok { Some(s3.after(next)) } else { None })
                    },
                }
            },
        }
    }

    /// `out`: the source value written to the port that the destination
    /// operand holds.
    #[verifier::opaque]
    pub open spec fn exec_out(self, c: Condition, dst: Operand, src: Operand, opcode: u16) -> (CpuView, Option<u32>) {
        let (s, rs) = self.source(src, opcode);
        match rs {
            None => (s, None),
            Some((v, off)) => {
                let (s2, rd) = s.destination(dst, off, opcode);
                match rd {
                    None => (s2, None),
                    Some((loc, next)) => if !condition_holds(s2.flag, c) {
                        (s2, Some(s2.after(next)))
                    } else {
                        let (s3, port) = s2.load(loc, Size::Word);
                        match port {
                            None => (s3, None),
                            Some(port) => (CpuView { io: s3.io.io_write(port, v), ..s3 }, Some(s3.after(next))),
                        }
                    },
                }
            },
        }
    }

    /// The instructions that take a source value and act on the machine.
    #[verifier::opaque]
    pub open spec fn exec_system(self, i: Instruction, opcode: u16) -> (CpuView, Option<u32>) {
        let (c, src) = match i {
            Instruction::Int(c, src) => (c, src),
            Instruction::Tlb(c, src) => (c, src),
            Instruction::Flp(c, src) => (c, src),
            _ => (Condition::Always, Operand::Immediate8),
        };
        let (s, rs) = self.source(src, opcode);
        match rs {
            None => (s, None),
            Some((b, off)) => if !condition_holds(s.flag, c) {
                (s, Some(s.after(off)))
            } else {
                (match i {
                    Instruction::Int(_, _) => CpuView { next_soft_interrupt: Some(b as u8), ..s },
                    Instruction::Tlb(_, _) => s.with_mem(
                        MemoryView { tlb: Map::empty(), paging_directory_address: b, ..s.mem },
                    ),
                    _ => s.with_mem(MemoryView { tlb: s.mem.tlb.remove(crate::memory::page_of(b)), ..s.mem }),
                }, Some(s.after(off)))
            },
        }
    }

    /// The instructions of no operand that only set a flag or switch.
    #[verifier::opaque]
    pub open spec fn exec_simple(self, i: Instruction) -> CpuView {
        match i {
            Instruction::Halt(c) => if condition_holds(self.flag, c) { CpuView { halted: true, ..self } } else { self },
            Instruction::Brk(c) => if condition_holds(self.flag, c) { CpuView { breakpoint: true, ..self } } else { self },
            Instruction::Ise(c) => if condition_holds(self.flag, c) {
                CpuView { flag: Flag { interrupt: true, ..self.flag }, ..self }
            } else {
                self
            },
            Instruction::Icl(c) => if condition_holds(self.flag, c) {
                CpuView { flag: Flag { interrupt: false, ..self.flag }, ..self }
            } else {
                self
            },
            Instruction::Mse(c) => if condition_holds(self.flag, c) {
                self.with_mem(MemoryView { mmu_enabled: true, ..self.mem })
            } else {
                self
            },
            Instruction::Mcl(c) => if condition_holds(self.flag, c) {
                self.with_mem(MemoryView { mmu_enabled: false, ..self.mem })
            } else {
                self
            },
            _ => self,
        }
    }

    /// One decoded instruction: the state after it and the address of the
    /// next one, or `None` when it was cut short by a fault.
    pub open spec fn execute(self, i: Instruction, opcode: u16) -> (CpuView, Option<u32>) {
        match i {
            Instruction::Add(size, c, d, src) => self.exec_alu(AluOp::Add, size, c, d, src, opcode),
            Instruction::Sub(size, c, d, src) => self.exec_alu(AluOp::Sub, size, c, d, src, opcode),
            Instruction::Mul(size, c, d, src) => self.exec_alu(AluOp::Mul, size, c, d, src, opcode),
            Instruction::Div(size, c, d, src) => self.exec_alu(AluOp::Div, size, c, d, src, opcode),
            Instruction::Rem(size, c, d, src) => self.exec_alu(AluOp::Rem, size, c, d, src, opcode),
            Instruction::And(size, c, d, src) => self.exec_alu(AluOp::And, size, c, d, src, opcode),
            Instruction::Or(size, c, d, src) => self.exec_alu(AluOp::Or, size, c, d, src, opcode),
            Instruction::Xor(size, c, d, src) => self.exec_alu(AluOp::Xor, size, c, d, src, opcode),
            Instruction::Sla(size, c, d, src) => self.exec_alu(AluOp::Sla, size, c, d, src, opcode),
            Instruction::Sra(size, c, d, src) => self.exec_alu(AluOp::Sra, size, c, d, src, opcode),
            Instruction::Srl(size, c, d, src) => self.exec_alu(AluOp::Srl, size, c, d, src, opcode),
            Instruction::Rol(size, c, d, src) => self.exec_alu(AluOp::Rol, size, c, d, src, opcode),
            Instruction::Ror(size, c, d, src) => self.exec_alu(AluOp::Ror, size, c, d, src, opcode),
            Instruction::Bse(size, c, d, src) => self.exec_alu(AluOp::Bse, size, c, d, src, opcode),
            Instruction::Bcl(size, c, d, src) => self.exec_alu(AluOp::Bcl, size, c, d, src, opcode),
            Instruction::Bts(size, c, d, src) => self.exec_alu(AluOp::Bts, size, c, d, src, opcode),
            Instruction::Cmp(size, c, d, src) => self.exec_alu(AluOp::Cmp, size, c, d, src, opcode),
            Instruction::Inc(size, c, d) => self.exec_alu_into(AluOp::Inc, size, c, d, 2, 1, opcode),
            Instruction::Dec(size, c, d) => self.exec_alu_into(AluOp::Dec, size, c, d, 2, 1, opcode),
            Instruction::Not(size, c, d) => self.exec_alu_into(AluOp::Not, size, c, d, 2, 0, opcode),
            Instruction::Mov(size, c, d, src) => self.exec_mov(size, c, d, src, false, opcode),
            Instruction::Movz(size, c, d, src) => self.exec_mov(size, c, d, src, true, opcode),
            Instruction::Jmp(c, src) => self.exec_branch(c, src, false, false, false, opcode),
            Instruction::Call(c, src) => self.exec_branch(c, src, false, true, false, opcode),
            Instruction::Loop(c, src) => self.exec_branch(c, src, false, false, true, opcode),
            Instruction::Rjmp(c, src) => self.exec_branch(c, src, true, false, false, opcode),
            Instruction::Rcall(c, src) => self.exec_branch(c, src, true, true, false, opcode),
            Instruction::Rloop(c, src) => self.exec_branch(c, src, true, false, true, opcode),
            Instruction::Rta(c, d, src) => self.exec_rta(c, d, src, opcode),
            Instruction::Push(size, c, src) => self.exec_push(size, c, src, opcode),
            Instruction::Pop(size, c, d) => self.exec_pop(size, c, d, opcode),
            Instruction::Ret(c) => if condition_holds(self.flag, c) {
                self.pop(Size::Word)
            } else {
                (self, Some(self.after(2)))
            },
            Instruction::Reti(c) => self.exec_reti(c),
            Instruction::In(c, d, src) => self.exec_in(c, d, src, opcode),
            Instruction::Out(c, d, src) => self.exec_out(c, d, src, opcode),
            Instruction::Int(_, _) | Instruction::Tlb(_, _) | Instruction::Flp(_, _) => self.exec_system(i, opcode),
            _ => (self.exec_simple(i), Some(self.after(2))),
        }
    }

    /// Interrupt or exception entry through vector table slot `slot`: the
    /// handler address is read with the MMU off; the old stack pointer (when
    /// swapping to the exception stack), the return address, the flag byte
    /// and the operand, if any, are pushed; interrupts and the swap are
    /// switched off. Nothing happens when the table cannot be read.
    #[verifier::opaque]
    pub open spec fn enter(self, slot: u32, operand: Option<u32>) -> CpuView {
        let mmu = self.mem.mmu_enabled;
        let (s1, h) = self.with_mem(MemoryView { mmu_enabled: false, ..self.mem }).rd32(wadd(0, slot as int * 4));
        let s2 = s1.with_mem(MemoryView { mmu_enabled: mmu, ..s1.mem });
        match h {
            None => s2,
            Some(handler) => {
                let s3 = if s2.flag.swap_sp {
                    CpuView { sp: s2.esp, ..s2 }.push(Size::Word, s2.sp).0
                } else {
                    s2
                };
                let s4 = s3.push(Size::Word, s3.ip).0;
                let s5 = s4.push(Size::Byte, flag_byte(s4.flag) as u32).0;
                let s6 = match operand {
                    Some(o) => s5.push(Size::Word, o).0,
                    None => s5,
                };
                CpuView { flag: Flag { interrupt: false, swap_sp: false, ..s6.flag }, ip: handler, ..s6 }
            },
        }
    }

    /// Delivers at most one pending event: an exception first, then a
    /// software interrupt, then a hardware one; interrupts only when the
    /// interrupt flag is set.
    #[verifier::opaque]
    pub open spec fn dispatch(self) -> CpuView {
        match self.next_exception {
            Some(v) => CpuView { next_exception: None, next_exception_operand: None, ..self }.enter(
                (256 + v) as u32,
                self.next_exception_operand,
            ),
            None => if self.next_soft_interrupt is Some && self.flag.interrupt {
                CpuView { next_soft_interrupt: None, ..self }.enter(self.next_soft_interrupt.unwrap() as u32, None)
            } else if self.next_interrupt is Some && self.flag.interrupt {
                CpuView { next_interrupt: None, ..self }.enter(self.next_interrupt.unwrap() as u32, None)
            } else {
                self
            },
        }
    }

    /// Moves a fault that memory raised into the exception slot.
    pub open spec fn collect(self) -> CpuView {
        match self.mem.exception {
            Some(e) => self.with_mem(MemoryView { exception: None, ..self.mem }).raise(e),
            None => self,
        }
    }

    pub open spec fn stopped(self) -> bool {
        self.halted || self.mem.fatal is Some || self.io.fatal is Some
    }

    /// One step of the processor: deliver a pending event, then fetch,
    /// decode and execute one instruction. A halted or dead machine stays.
    pub open spec fn step(self) -> CpuView {
        if self.stopped() {
            self
        } else {
            let s0 = self.dispatch();
            let (s1, op) = s0.rd16(s0.ip);
            let s2 = match op {
                None => s1,
                Some(h) => match decode(h) {
                    None => s1.raise(Exception::InvalidOpcode(h as u32)),
                    Some(i) => {
                        let (s, next) = s1.execute(i, h);
                        match next {
                            Some(ip) => CpuView { ip, ..s },
                            None => s,
                        }
                    },
                },
            };
            s2.collect()
        }
    }
}


impl Flag {
    /// The flags packed into a byte: bit 0 zero, 1 carry, 2 interrupt, 3
    /// swap.
    pub fn to_byte(&self) -> (r: u8)
        ensures
            r == flag_byte(*self),
    {
        (if self.swap_sp { 8u8 } else { 0u8 }) | (if self.interrupt { 4u8 } else { 0u8 }) | (if self.carry { 2u8 } else { 0u8 }) | (
        if self.zero { 1u8 } else { 0u8 })
    }

    pub fn from_byte(byte: u8) -> (r: Flag)
        ensures
            r == flag_of_byte(byte),
    {
        Flag { swap_sp: byte & 8 != 0, interrupt: byte & 4 != 0, carry: byte & 2 != 0, zero: byte & 1 != 0 }
    }
}

impl From<Flag> for u8 {
    fn from(flag: Flag) -> (r: u8)
        ensures
            r == flag_byte(flag),
    {
        flag.to_byte()
    }
}

impl vstd::std_specs::convert::FromSpecImpl<Flag> for u8 {
    open spec fn obeys_from_spec() -> bool {
        true
    }

    open spec fn from_spec(v: Flag) -> u8 {
        flag_byte(v)
    }
}

impl From<u8> for Flag {
    fn from(byte: u8) -> (r: Flag)
        ensures
            r == flag_of_byte(byte),
    {
        Flag::from_byte(byte)
    }
}

impl vstd::std_specs::convert::FromSpecImpl<u8> for Flag {
    open spec fn obeys_from_spec() -> bool {
        true
    }

    open spec fn from_spec(v: u8) -> Flag {
        flag_of_byte(v)
    }
}

/// The processor: registers, flags, pending events, and the bus it drives.
pub struct Cpu {
    pub instruction_pointer: u32,
    pub stack_pointer: u32,
    pub exception_stack_pointer: u32,
    pub frame_pointer: u32,
    pub register: Vec<u32>,
    pub flag: Flag,
    pub halted: bool,
    /// Set by `brk`, for the host to show the registers.
    pub breakpoint: bool,
    pub bus: Bus,
    pub next_interrupt: Option<u8>,
    pub next_soft_interrupt: Option<u8>,
    pub next_exception: Option<u8>,
    pub next_exception_operand: Option<u32>,
}

impl View for Cpu {
    type V = CpuView;

    open spec fn view(&self) -> CpuView {
        CpuView {
            ip: self.instruction_pointer,
            sp: self.stack_pointer,
            esp: self.exception_stack_pointer,
            fp: self.frame_pointer,
            regs: self.register@,
            flag: self.flag,
            halted: self.halted,
            breakpoint: self.breakpoint,
            mem: self.bus.memory@,
            io: self.bus.io(),
            next_interrupt: self.next_interrupt,
            next_soft_interrupt: self.next_soft_interrupt,
            next_exception: self.next_exception,
            next_exception_operand: self.next_exception_operand,
        }
    }
}

impl Cpu {
    pub open spec fn wf(&self) -> bool {
        &&& self.register@.len() == 32
        &&& self.bus.wf()
    }

    /// The state on reset: execution starts at the ROM, everything else is
    /// zero or clear.
    pub fn new(bus: Bus) -> (r: Cpu)
        requires
            bus.wf(),
        ensures
            r.wf(),
            r.bus == bus,
            r@.ip == 0xF000_0000u32,
            r@.sp == 0 && r@.esp == 0 && r@.fp == 0,
            forall|i: int| 0 <= i < 32 ==> r@.regs[i] == 0,
            r@.flag == (Flag { swap_sp: false, interrupt: false, carry: false, zero: false }),
            !r@.halted && !r@.breakpoint,
            r@.next_interrupt is None && r@.next_soft_interrupt is None,
            r@.next_exception is None && r@.next_exception_operand is None,
    {
        Cpu {
            instruction_pointer: 0xF000_0000,
            stack_pointer: 0,
            exception_stack_pointer: 0,
            frame_pointer: 0,
            register: vec![0u32; 32],
            flag: Flag { swap_sp: false, interrupt: false, carry: false, zero: false },
            halted: false,
            breakpoint: false,
            bus,
            next_interrupt: None,
            next_soft_interrupt: None,
            next_exception: None,
            next_exception_operand: None,
        }
    }

    pub fn check_condition(&self, condition: Condition) -> (r: bool)
        ensures
            r == condition_holds(self.flag, condition),
    {
        match condition {
            Condition::Always => true,
            Condition::Zero => self.flag.zero,
            Condition::NotZero => !self.flag.zero,
            Condition::Carry => self.flag.carry,
            Condition::NotCarry => !self.flag.carry,
            Condition::GreaterThan => !self.flag.carry && !self.flag.zero,
            Condition::LessThanEqualTo => self.flag.carry || self.flag.zero,
        }
    }

    /// Register `register`: 0 to 31 the general ones, then the stack, the
    /// exception stack and the frame pointer.
    pub fn read_register(&self, register: u8) -> (r: u32)
        requires
            self.wf(),
            register <= REGISTER_FP,
        ensures
            r == self@.reg(register),
    {
        if register < 32 {
            self.register[register as usize]
        } else if register == REGISTER_SP {
            self.stack_pointer
        } else if register == REGISTER_ESP {
            self.exception_stack_pointer
        } else {
            self.frame_pointer
        }
    }

    pub fn write_register(&mut self, register: u8, word: u32)
        requires
            old(self).wf(),
            register <= REGISTER_FP,
        ensures
            final(self).wf(),
            final(self)@ == old(self)@.set_reg(register, word),
    {
        if register < 32 {
            self.register.set(register as usize, word);
        } else if register == REGISTER_SP {
            self.stack_pointer = word;
        } else if register == REGISTER_ESP {
            self.exception_stack_pointer = word;
        } else {
            self.frame_pointer = word;
        }
    }

    fn read_sized(&mut self, size: Size, address: u32) -> (r: Option<u32>)
        requires
            old(self).wf(),
        ensures
            final(self).wf(),
            (final(self)@, r) == old(self)@.rd(size, address),
    {
        reveal(CpuView::rd);
        match size {
            Size::Byte => match self.bus.memory.read_8(address) {
                Some(v) => Some(v as u32),
                None => None,
            },
            Size::Half => match self.bus.memory.read_16(address) {
                Some(v) => Some(v as u32),
                None => None,
            },
            Size::Word => self.bus.memory.read_32(address),
        }
    }

    fn write_sized(&mut self, size: Size, address: u32, value: u32) -> (r: bool)
        requires
            old(self).wf(),
        ensures
            final(self).wf(),
            (final(self)@, r) == old(self)@.wr(size, address, value),
    {
        reveal(CpuView::wr);
        match size {
            Size::Byte => self.bus.memory.write_8(address, value as u8),
            Size::Half => self.bus.memory.write_16(address, value as u16),
            Size::Word => self.bus.memory.write_32(address, value),
        }
    }

    /// Pushes the low `size` bytes of `value`; the stack pointer moves only
    /// when the write succeeds.
    pub fn push_stack(&mut self, size: Size, value: u32) -> (r: bool)
        requires
            old(self).wf(),
        ensures
            final(self).wf(),
            (final(self)@, r) == old(self)@.push(size, value),
    {
        reveal(CpuView::push);
        let bytes: u32 = match size {
            Size::Byte => 1,
            Size::Half => 2,
            Size::Word => 4,
        };
        let address = self.stack_pointer.wrapping_sub(bytes);
        proof {
            assert(address == wadd(old(self).stack_pointer, -(bytes as int))) by {
                assert(wadd(old(self).stack_pointer, -(bytes as int)) == ((old(self).stack_pointer as int - bytes as int)
                    % 0x1_0000_0000) as u32);
            }
        }
        let ok = self.write_sized(size, address, value);
        if ok {
            self.stack_pointer = address;
        }
        ok
    }

    pub fn pop_stack(&mut self, size: Size) -> (r: Option<u32>)
        requires
            old(self).wf(),
        ensures
            final(self).wf(),
            (final(self)@, r) == old(self)@.pop(size),
    {
        reveal(CpuView::pop);
        let bytes: u32 = match size {
            Size::Byte => 1,
            Size::Half => 2,
            Size::Word => 4,
        };
        let moved = self.stack_pointer.wrapping_add(bytes);
        let v = self.read_sized(size, self.stack_pointer);
        if v.is_some() {
            self.stack_pointer = moved;
        }
        v
    }

    pub fn push_stack_8(&mut self, byte: u8) -> (r: bool)
        requires
            old(self).wf(),
        ensures
            final(self).wf(),
            (final(self)@, r) == old(self)@.push(Size::Byte, byte as u32),
    {
        self.push_stack(Size::Byte, byte as u32)
    }

    pub fn pop_stack_8(&mut self) -> (r: Option<u8>)
        requires
            old(self).wf(),
        ensures
            final(self).wf(),
            final(self)@ == old(self)@.pop(Size::Byte).0,
            r == match old(self)@.pop(Size::Byte).1 {
                Some(v) => Some(v as u8),
                None => None,
            },
    {
        match self.pop_stack(Size::Byte) {
            Some(v) => Some(v as u8),
            None => None,
        }
    }

    pub fn push_stack_16(&mut self, half: u16) -> (r: bool)
        requires
            old(self).wf(),
        ensures
            final(self).wf(),
            (final(self)@, r) == old(self)@.push(Size::Half, half as u32),
    {
        self.push_stack(Size::Half, half as u32)
    }

    pub fn pop_stack_16(&mut self) -> (r: Option<u16>)
        requires
            old(self).wf(),
        ensures
            final(self).wf(),
            final(self)@ == old(self)@.pop(Size::Half).0,
            r == match old(self)@.pop(Size::Half).1 {
                Some(v) => Some(v as u16),
                None => None,
            },
    {
        match self.pop_stack(Size::Half) {
            Some(v) => Some(v as u16),
            None => None,
        }
    }

    pub fn push_stack_32(&mut self, word: u32) -> (r: bool)
        requires
            old(self).wf(),
        ensures
            final(self).wf(),
            (final(self)@, r) == old(self)@.push(Size::Word, word),
    {
        self.push_stack(Size::Word, word)
    }

    pub fn pop_stack_32(&mut self) -> (r: Option<u32>)
        requires
            old(self).wf(),
        ensures
            final(self).wf(),
            (final(self)@, r) == old(self)@.pop(Size::Word),
    {
        self.pop_stack(Size::Word)
    }

    /// The vector number of an exception and the operand its entry pushes.
    pub fn exception_to_vector(exception: Exception) -> (r: (u8, Option<u32>))
        ensures
            r == exception_vector(exception),
    {
        match exception {
            Exception::DivideByZero => (0, None),
            Exception::InvalidOpcode(opcode) => (1, Some(opcode)),
            Exception::PageFaultRead(virtual_address) => (2, Some(virtual_address)),
            Exception::PageFaultWrite(virtual_address) => (3, Some(virtual_address)),
        }
    }

    /// Queues `exception` for the start of the next step.
    pub fn raise_exception(&mut self, exception: Exception)
        requires
            old(self).wf(),
        ensures
            final(self).wf(),
            final(self)@ == old(self)@.raise(exception),
    {
        let (vector, operand) = Cpu::exception_to_vector(exception);
        self.next_exception = Some(vector);
        self.next_exception_operand = operand;
    }

    /// Fetches the source operand, whose bytes follow the opcode half: its
    /// value and the offset just past it.
    pub fn read_source(&mut self, source: Operand, opcode: u16) -> (r: Option<(u32, u32)>)
        requires
            old(self).wf(),
        ensures
            final(self).wf(),
            (final(self)@, r) == old(self)@.source(source, opcode),
            r matches Some((_, off)) ==> 3 <= off <= 6,
    {
        reveal(CpuView::source);
        let at = self.instruction_pointer.wrapping_add(2);
        match source {
            Operand::Register => {
                let id = self.bus.memory.read_8(at)?;
                if id <= REGISTER_FP {
                    Some((self.read_register(id), 3))
                } else {
                    self.raise_exception(Exception::InvalidOpcode(opcode as u32));
                    None
                }
            },
            Operand::RegisterPtr(size) => {
                let id = self.bus.memory.read_8(at)?;
                if id <= REGISTER_FP {
                    let pointer = self.read_register(id);
                    let v = self.read_sized(size, pointer)?;
                    Some((v, 3))
                } else {
                    self.raise_exception(Exception::InvalidOpcode(opcode as u32));
                    None
                }
            },
            Operand::Immediate8 => {
                let v = self.bus.memory.read_8(at)?;
                Some((v as u32, 3))
            },
            Operand::Immediate16 => {
                let v = self.bus.memory.read_16(at)?;
                Some((v as u32, 4))
            },
            Operand::Immediate32 => {
                let v = self.bus.memory.read_32(at)?;
                Some((v, 6))
            },
            Operand::ImmediatePtr(size) => {
                let pointer = self.bus.memory.read_32(at)?;
                let v = self.read_sized(size, pointer)?;
                Some((v, 6))
            },
        }
    }

    /// Fetches the destination operand, whose bytes start at `offset`: where
    /// it is, and the offset just past it.
    pub fn read_destination(&mut self, destination: Operand, offset: u32, opcode: u16) -> (r: Option<(Location, u32)>)
        requires
            old(self).wf(),
            offset <= 6,
        ensures
            final(self).wf(),
            (final(self)@, r) == old(self)@.destination(destination, offset, opcode),
            r matches Some((Location::Register(id), _)) ==> id <= REGISTER_FP,
    {
        reveal(CpuView::destination);
        let at = self.instruction_pointer.wrapping_add(offset);
        match destination {
            Operand::Register => {
                let id = self.bus.memory.read_8(at)?;
                if id <= REGISTER_FP {
                    Some((Location::Register(id), offset + 1))
                } else {
                    self.raise_exception(Exception::InvalidOpcode(opcode as u32));
                    None
                }
            },
            Operand::RegisterPtr(_) => {
                let id = self.bus.memory.read_8(at)?;
                if id <= REGISTER_FP {
                    Some((Location::Memory(self.read_register(id)), offset + 1))
                } else {
                    self.raise_exception(Exception::InvalidOpcode(opcode as u32));
                    None
                }
            },
            Operand::ImmediatePtr(_) => {
                let pointer = self.bus.memory.read_32(at)?;
                Some((Location::Memory(pointer), offset + 4))
            },
            _ => {
                self.raise_exception(Exception::InvalidOpcode(opcode as u32));
                None
            },
        }
    }

    fn load(&mut self, location: Location, size: Size) -> (r: Option<u32>)
        requires
            old(self).wf(),
            location matches Location::Register(id) ==> id <= REGISTER_FP,
        ensures
            final(self).wf(),
            (final(self)@, r) == old(self)@.load(location, size),
    {
        reveal(CpuView::load);
        match location {
            Location::Register(id) => Some(self.read_register(id) & crate::alu::size_mask(size)),
            Location::Memory(address) => self.read_sized(size, address),
        }
    }

    fn store(&mut self, location: Location, size: Size, value: u32, zero_extend: bool) -> (r: bool)
        requires
            old(self).wf(),
            location matches Location::Register(id) ==> id <= REGISTER_FP,
        ensures
            final(self).wf(),
            (final(self)@, r) == old(self)@.store(location, size, value, zero_extend),
    {
        reveal(CpuView::store);
        match location {
            Location::Register(id) => {
                let m = crate::alu::size_mask(size);
                let word = if zero_extend { value & m } else { (self.read_register(id) & !m) | (value & m) };
                self.write_register(id, word);
                true
            },
            Location::Memory(address) => self.write_sized(size, address, value),
        }
    }

    #[verifier::rlimit(40)]
    fn alu_at(&mut self, op: AluOp, size: Size, location: Location, next: u32, b: u32) -> (r: Option<u32>)
        requires
            old(self).wf(),
            location matches Location::Register(id) ==> id <= REGISTER_FP,
        ensures
            final(self).wf(),
            (final(self)@, r) == old(self)@.alu_at(op, size, location, next, b),
    {
        reveal(CpuView::alu_at);
        let a = self.load(location, size)?;
        match compute(op, size, a, b, self.flag) {
            None => {
                self.raise_exception(Exception::DivideByZero);
                None
            },
            Some((value, flag)) => {
                if !matches!(op, AluOp::Cmp | AluOp::Bts) {
                    if !self.store(location, size, value, false) {
                        return None;
                    }
                }
                self.flag = flag;
                Some(self.instruction_pointer.wrapping_add(next))
            },
        }
    }

    #[verifier::rlimit(40)]
    fn exec_alu_into(&mut self, op: AluOp, size: Size, condition: Condition, destination: Operand, offset: u32, b: u32, opcode: u16) -> (r: Option<u32>)
        requires
            old(self).wf(),
            offset <= 6,
        ensures
            final(self).wf(),
            (final(self)@, r) == old(self)@.exec_alu_into(op, size, condition, destination, offset, b, opcode),
    {
        reveal(CpuView::exec_alu_into);
        let (location, next) = self.read_destination(destination, offset, opcode)?;
        if !self.check_condition(condition) {
            return Some(self.instruction_pointer.wrapping_add(next));
        }
        self.alu_at(op, size, location, next, b)
    }

    #[verifier::rlimit(40)]
    fn exec_alu(&mut self, op: AluOp, size: Size, condition: Condition, destination: Operand, source: Operand, opcode: u16) -> (r: Option<u32>)
        requires
            old(self).wf(),
        ensures
            final(self).wf(),
            (final(self)@, r) == old(self)@.exec_alu(op, size, condition, destination, source, opcode),
    {
        reveal(CpuView::exec_alu);
        let (b, offset) = self.read_source(source, opcode)?;
        self.exec_alu_into(op, size, condition, destination, offset, b, opcode)
    }

    #[verifier::rlimit(40)]
    fn exec_mov(&mut self, size: Size, condition: Condition, destination: Operand, source: Operand, zero_extend: bool, opcode: u16) -> (r: Option<u32>)
        requires
            old(self).wf(),
        ensures
            final(self).wf(),
            (final(self)@, r) == old(self)@.exec_mov(size, condition, destination, source, zero_extend, opcode),
    {
        reveal(CpuView::exec_mov);
        let (b, offset) = self.read_source(source, opcode)?;
        let (location, next) = self.read_destination(destination, offset, opcode)?;
        if !self.check_condition(condition) {
            return Some(self.instruction_pointer.wrapping_add(next));
        }
        if self.store(location, size, b, zero_extend) {
            Some(self.instruction_pointer.wrapping_add(next))
        } else {
            None
        }
    }

    #[verifier::rlimit(40)]
    fn exec_branch(&mut self, condition: Condition, source: Operand, relative: bool, call: bool, looping: bool, opcode: u16) -> (r: Option<u32>)
        requires
            old(self).wf(),
        ensures
            final(self).wf(),
            (final(self)@, r) == old(self)@.exec_branch(condition, source, relative, call, looping, opcode),
    {
        reveal(CpuView::exec_branch);
        let (b, offset) = self.read_source(source, opcode)?;
        let fall = self.instruction_pointer.wrapping_add(offset);
        let target = if relative { self.instruction_pointer.wrapping_add(b) } else { b };
        if looping {
            let counter = self.read_register(31).wrapping_sub(1);
            proof {
                assert(counter == wadd(self@.reg(31), -1));
            }
            self.write_register(31, counter);
        }
        let taken = self.check_condition(condition) && (!looping || self.read_register(31) != 0);
        if !taken {
            Some(fall)
        } else if call {
            if self.push_stack(Size::Word, fall) {
                Some(target)
            } else {
                None
            }
        } else {
            Some(target)
        }
    }

    fn rta_at(&mut self, location: Location, next: u32, b: u32) -> (r: Option<u32>)
        requires
            old(self).wf(),
            location matches Location::Register(id) ==> id <= REGISTER_FP,
        ensures
            final(self).wf(),
            (final(self)@, r) == old(self)@.rta_at(location, next, b),
    {
        reveal(CpuView::rta_at);
        let target = match location {
            Location::Register(id) => Location::Register(id),
            Location::Memory(a) => Location::Memory(self.instruction_pointer.wrapping_add(a)),
        };
        if self.store(target, Size::Word, self.instruction_pointer.wrapping_add(b), false) {
            Some(self.instruction_pointer.wrapping_add(next))
        } else {
            None
        }
    }

    #[verifier::rlimit(40)]
    fn exec_rta(&mut self, condition: Condition, destination: Operand, source: Operand, opcode: u16) -> (r: Option<u32>)
        requires
            old(self).wf(),
        ensures
            final(self).wf(),
            (final(self)@, r) == old(self)@.exec_rta(condition, destination, source, opcode),
    {
        reveal(CpuView::exec_rta);
        let (b, offset) = self.read_source(source, opcode)?;
        let (location, next) = self.read_destination(destination, offset, opcode)?;
        if !self.check_condition(condition) {
            return Some(self.instruction_pointer.wrapping_add(next));
        }
        self.rta_at(location, next, b)
    }

    #[verifier::rlimit(40)]
    fn exec_push(&mut self, size: Size, condition: Condition, source: Operand, opcode: u16) -> (r: Option<u32>)
        requires
            old(self).wf(),
        ensures
            final(self).wf(),
            (final(self)@, r) == old(self)@.exec_push(size, condition, source, opcode),
    {
        reveal(CpuView::exec_push);
        let (b, offset) = self.read_source(source, opcode)?;
        if !self.check_condition(condition) {
            return Some(self.instruction_pointer.wrapping_add(offset));
        }
        if self.push_stack(size, b) {
            Some(self.instruction_pointer.wrapping_add(offset))
        } else {
            None
        }
    }

    #[verifier::rlimit(40)]
    fn exec_pop(&mut self, size: Size, condition: Condition, destination: Operand, opcode: u16) -> (r: Option<u32>)
        requires
            old(self).wf(),
        ensures
            final(self).wf(),
            (final(self)@, r) == old(self)@.exec_pop(size, condition, destination, opcode),
    {
        reveal(CpuView::exec_pop);
        let (location, next) = self.read_destination(destination, 2, opcode)?;
        if !self.check_condition(condition) {
            return Some(self.instruction_pointer.wrapping_add(next));
        }
        let v = self.pop_stack(size)?;
        if self.store(location, size, v, false) {
            Some(self.instruction_pointer.wrapping_add(next))
        } else {
            None
        }
    }

    #[verifier::rlimit(40)]
    fn exec_reti(&mut self, condition: Condition) -> (r: Option<u32>)
        requires
            old(self).wf(),
        ensures
            final(self).wf(),
            (final(self)@, r) == old(self)@.exec_reti(condition),
    {
        reveal(CpuView::exec_reti);
        if !self.check_condition(condition) {
            return Some(self.instruction_pointer.wrapping_add(2));
        }
        let byte = self.pop_stack(Size::Byte)?;
        let ip = self.pop_stack(Size::Word)?;
        let flag = Flag::from_byte(byte as u8);
        if flag.swap_sp {
            let sp = self.pop_stack(Size::Word)?;
            self.stack_pointer = sp;
        }
        self.flag = flag;
        Some(ip)
    }

    #[verifier::rlimit(40)]
    fn exec_in(&mut self, condition: Condition, destination: Operand, source: Operand, opcode: u16) -> (r: Option<u32>)
        requires
            old(self).wf(),
        ensures
            final(self).wf(),
            (final(self)@, r) == old(self)@.exec_in(condition, destination, source, opcode),
    {
        reveal(CpuView::exec_in);
        let (port, offset) = self.read_source(source, opcode)?;
        let (location, next) = self.read_destination(destination, offset, opcode)?;
        if !self.check_condition(condition) {
            return Some(self.instruction_pointer.wrapping_add(next));
        }
        let v = self.bus.read_io(port);
        if self.store(location, Size::Word, v, false) {
            Some(self.instruction_pointer.wrapping_add(next))
        } else {
            None
        }
    }

    #[verifier::rlimit(40)]
    fn exec_out(&mut self, condition: Condition, destination: Operand, source: Operand, opcode: u16) -> (r: Option<u32>)
        requires
            old(self).wf(),
        ensures
            final(self).wf(),
            (final(self)@, r) == old(self)@.exec_out(condition, destination, source, opcode),
    {
        reveal(CpuView::exec_out);
        let (v, offset) = self.read_source(source, opcode)?;
        let (location, next) = self.read_destination(destination, offset, opcode)?;
        if !self.check_condition(condition) {
            return Some(self.instruction_pointer.wrapping_add(next));
        }
        let port = self.load(location, Size::Word)?;
        self.bus.write_io(port, v);
        Some(self.instruction_pointer.wrapping_add(next))
    }

    fn exec_system(&mut self, instruction: Instruction, opcode: u16) -> (r: Option<u32>)
        requires
            old(self).wf(),
            instruction is Int || instruction is Tlb || instruction is Flp,
        ensures
            final(self).wf(),
            (final(self)@, r) == old(self)@.exec_system(instruction, opcode),
    {
        reveal(CpuView::exec_system);
        let (condition, source) = match instruction {
            Instruction::Int(c, src) => (c, src),
            Instruction::Tlb(c, src) => (c, src),
            Instruction::Flp(c, src) => (c, src),
            _ => (Condition::Always, Operand::Immediate8),
        };
        let (b, offset) = self.read_source(source, opcode)?;
        if self.check_condition(condition) {
            match instruction {
                Instruction::Int(_, _) => {
                    self.next_soft_interrupt = Some(b as u8);
                },
                Instruction::Tlb(_, _) => {
                    self.bus.memory.flush_tlb(Some(b));
                },
                _ => {
                    self.bus.memory.flush_page(b);
                },
            }
        }
        Some(self.instruction_pointer.wrapping_add(offset))
    }

    fn exec_simple(&mut self, instruction: Instruction)
        requires
            old(self).wf(),
        ensures
            final(self).wf(),
            final(self)@ == old(self)@.exec_simple(instruction),
    {
        reveal(CpuView::exec_simple);
        match instruction {
            Instruction::Halt(c) => {
                if self.check_condition(c) {
                    self.halted = true;
                }
            },
            Instruction::Brk(c) => {
                if self.check_condition(c) {
                    self.breakpoint = true;
                }
            },
            Instruction::Ise(c) => {
                if self.check_condition(c) {
                    self.flag.interrupt = true;
                }
            },
            Instruction::Icl(c) => {
                if self.check_condition(c) {
                    self.flag.interrupt = false;
                }
            },
            Instruction::Mse(c) => {
                if self.check_condition(c) {
                    self.bus.memory.set_mmu_enabled(true);
                }
            },
            Instruction::Mcl(c) => {
                if self.check_condition(c) {
                    self.bus.memory.set_mmu_enabled(false);
                }
            },
            _ => {},
        }
    }

    #[verifier::rlimit(60)]
    fn execute_alu(&mut self, instruction: Instruction, opcode: u16) -> (r: Option<u32>)
        requires
            old(self).wf(),
            instruction is Add || instruction is Sub || instruction is Mul || instruction is Div || instruction is Rem || instruction is And || instruction is Or || instruction is Xor || instruction is Sla || instruction is Sra || instruction is Srl || instruction is Rol || instruction is Ror || instruction is Bse || instruction is Bcl || instruction is Bts || instruction is Cmp || instruction is Inc || instruction is Dec || instruction is Not,
        ensures
            final(self).wf(),
            (final(self)@, r) == old(self)@.execute(instruction, opcode),
    {
        match instruction {
            Instruction::Add(size, c, d, src) => self.exec_alu(AluOp::Add, size, c, d, src, opcode),
            Instruction::Sub(size, c, d, src) => self.exec_alu(AluOp::Sub, size, c, d, src, opcode),
            Instruction::Mul(size, c, d, src) => self.exec_alu(AluOp::Mul, size, c, d, src, opcode),
            Instruction::Div(size, c, d, src) => self.exec_alu(AluOp::Div, size, c, d, src, opcode),
            Instruction::Rem(size, c, d, src) => self.exec_alu(AluOp::Rem, size, c, d, src, opcode),
            Instruction::And(size, c, d, src) => self.exec_alu(AluOp::And, size, c, d, src, opcode),
            Instruction::Or(size, c, d, src) => self.exec_alu(AluOp::Or, size, c, d, src, opcode),
            Instruction::Xor(size, c, d, src) => self.exec_alu(AluOp::Xor, size, c, d, src, opcode),
            Instruction::Sla(size, c, d, src) => self.exec_alu(AluOp::Sla, size, c, d, src, opcode),
            Instruction::Sra(size, c, d, src) => self.exec_alu(AluOp::Sra, size, c, d, src, opcode),
            Instruction::Srl(size, c, d, src) => self.exec_alu(AluOp::Srl, size, c, d, src, opcode),
            Instruction::Rol(size, c, d, src) => self.exec_alu(AluOp::Rol, size, c, d, src, opcode),
            Instruction::Ror(size, c, d, src) => self.exec_alu(AluOp::Ror, size, c, d, src, opcode),
            Instruction::Bse(size, c, d, src) => self.exec_alu(AluOp::Bse, size, c, d, src, opcode),
            Instruction::Bcl(size, c, d, src) => self.exec_alu(AluOp::Bcl, size, c, d, src, opcode),
            Instruction::Bts(size, c, d, src) => self.exec_alu(AluOp::Bts, size, c, d, src, opcode),
            Instruction::Cmp(size, c, d, src) => self.exec_alu(AluOp::Cmp, size, c, d, src, opcode),
            Instruction::Inc(size, c, d) => self.exec_alu_into(AluOp::Inc, size, c, d, 2, 1, opcode),
            Instruction::Dec(size, c, d) => self.exec_alu_into(AluOp::Dec, size, c, d, 2, 1, opcode),
            Instruction::Not(size, c, d) => self.exec_alu_into(AluOp::Not, size, c, d, 2, 0, opcode),
            _ => None,
        }
    }

    #[verifier::rlimit(60)]
    fn execute_control(&mut self, instruction: Instruction, opcode: u16) -> (r: Option<u32>)
        requires
            old(self).wf(),
            instruction is Mov || instruction is Movz || instruction is Jmp || instruction is Call || instruction is Loop || instruction is Rjmp || instruction is Rcall || instruction is Rloop || instruction is Rta || instruction is Push || instruction is Pop || instruction is Ret || instruction is Reti || instruction is In || instruction is Out || instruction is Int || instruction is Tlb || instruction is Flp,
        ensures
            final(self).wf(),
            (final(self)@, r) == old(self)@.execute(instruction, opcode),
    {
        match instruction {
            Instruction::Mov(size, c, d, src) => self.exec_mov(size, c, d, src, false, opcode),
            Instruction::Movz(size, c, d, src) => self.exec_mov(size, c, d, src, true, opcode),
            Instruction::Jmp(c, src) => self.exec_branch(c, src, false, false, false, opcode),
            Instruction::Call(c, src) => self.exec_branch(c, src, false, true, false, opcode),
            Instruction::Loop(c, src) => self.exec_branch(c, src, false, false, true, opcode),
            Instruction::Rjmp(c, src) => self.exec_branch(c, src, true, false, false, opcode),
            Instruction::Rcall(c, src) => self.exec_branch(c, src, true, true, false, opcode),
            Instruction::Rloop(c, src) => self.exec_branch(c, src, true, false, true, opcode),
            Instruction::Rta(c, d, src) => self.exec_rta(c, d, src, opcode),
            Instruction::Push(size, c, src) => self.exec_push(size, c, src, opcode),
            Instruction::Pop(size, c, d) => self.exec_pop(size, c, d, opcode),
            Instruction::Ret(c) => {
                if self.check_condition(c) {
                    self.pop_stack(Size::Word)
                } else {
                    Some(self.instruction_pointer.wrapping_add(2))
                }
            },
            Instruction::Reti(c) => self.exec_reti(c),
            Instruction::In(c, d, src) => self.exec_in(c, d, src, opcode),
            Instruction::Out(c, d, src) => self.exec_out(c, d, src, opcode),
            Instruction::Int(_, _) | Instruction::Tlb(_, _) | Instruction::Flp(_, _) => self.exec_system(instruction, opcode),
            _ => None,
        }
    }

    /// Executes one decoded instruction; returns the address of the next,
    /// or `None` when a fault cut it short (the instruction pointer then
    /// stays, so the handler returns to the faulting instruction).
    pub fn execute_instruction(&mut self, instruction: Instruction, opcode: u16) -> (r: Option<u32>)
        requires
            old(self).wf(),
        ensures
            final(self).wf(),
            (final(self)@, r) == old(self)@.execute(instruction, opcode),
    {
        if matches!(instruction, Instruction::Add(..) | Instruction::Sub(..) | Instruction::Mul(..) | Instruction::Div(..) | Instruction::Rem(..) | Instruction::And(..) | Instruction::Or(..) | Instruction::Xor(..) | Instruction::Sla(..) | Instruction::Sra(..) | Instruction::Srl(..) | Instruction::Rol(..) | Instruction::Ror(..) | Instruction::Bse(..) | Instruction::Bcl(..) | Instruction::Bts(..) | Instruction::Cmp(..) | Instruction::Inc(..) | Instruction::Dec(..) | Instruction::Not(..)) {
            self.execute_alu(instruction, opcode)
        } else if matches!(instruction, Instruction::Mov(..) | Instruction::Movz(..) | Instruction::Jmp(..) | Instruction::Call(..) | Instruction::Loop(..) | Instruction::Rjmp(..) | Instruction::Rcall(..) | Instruction::Rloop(..) | Instruction::Rta(..) | Instruction::Push(..) | Instruction::Pop(..) | Instruction::Ret(..) | Instruction::Reti(..) | Instruction::In(..) | Instruction::Out(..) | Instruction::Int(..) | Instruction::Tlb(..) | Instruction::Flp(..)) {
            self.execute_control(instruction, opcode)
        } else {
            let next = self.instruction_pointer.wrapping_add(2);
            self.exec_simple(instruction);
            Some(next)
        }
    }

    /// Enters the handler in vector table slot `slot`.
    fn enter(&mut self, slot: u32, operand: Option<u32>)
        requires
            old(self).wf(),
            slot < 512,
        ensures
            final(self).wf(),
            final(self)@ == old(self)@.enter(slot, operand),
    {
        reveal(CpuView::enter);
        let mmu = self.bus.memory.mmu_enabled();
        self.bus.memory.set_mmu_enabled(false);
        let handler = self.bus.memory.read_32(slot * 4);
        self.bus.memory.set_mmu_enabled(mmu);
        if let Some(handler) = handler {
            if self.flag.swap_sp {
                let old_stack_pointer = self.stack_pointer;
                self.stack_pointer = self.exception_stack_pointer;
                self.push_stack(Size::Word, old_stack_pointer);
            }
            let ip = self.instruction_pointer;
            self.push_stack(Size::Word, ip);
            let byte = self.flag.to_byte();
            self.push_stack(Size::Byte, byte as u32);
            if let Some(operand) = operand {
                self.push_stack(Size::Word, operand);
            }
            self.flag.interrupt = false;
            self.flag.swap_sp = false;
            self.instruction_pointer = handler;
        }
    }

    /// Enters the handler of interrupt `vector`.
    pub fn handle_interrupt(&mut self, vector: u8)
        requires
            old(self).wf(),
        ensures
            final(self).wf(),
            final(self)@ == old(self)@.enter(vector as u32, None),
    {
        self.enter(vector as u32, None);
    }

    /// Enters the handler of exception `vector`, pushing `operand` last.
    pub fn handle_exception(&mut self, vector: u8, operand: Option<u32>)
        requires
            old(self).wf(),
        ensures
            final(self).wf(),
            final(self)@ == old(self)@.enter((256 + vector) as u32, operand),
    {
        self.enter(256 + vector as u32, operand);
    }

    fn dispatch(&mut self)
        requires
            old(self).wf(),
        ensures
            final(self).wf(),
            final(self)@ == old(self)@.dispatch(),
    {
        reveal(CpuView::dispatch);
        if let Some(vector) = self.next_exception {
            let operand = self.next_exception_operand;
            self.next_exception = None;
            self.next_exception_operand = None;
            self.handle_exception(vector, operand);
        } else if self.next_soft_interrupt.is_some() && self.flag.interrupt {
            let vector = self.next_soft_interrupt.unwrap();
            self.next_soft_interrupt = None;
            self.handle_interrupt(vector);
        } else if self.next_interrupt.is_some() && self.flag.interrupt {
            let vector = self.next_interrupt.unwrap();
            self.next_interrupt = None;
            self.handle_interrupt(vector);
        }
    }

    fn collect(&mut self)
        requires
            old(self).wf(),
        ensures
            final(self).wf(),
            final(self)@ == old(self)@.collect(),
    {
        if let Some(exception) = self.bus.memory.take_exception() {
            self.raise_exception(exception);
        }
    }

    /// Posts an event: a device's interrupt request waits in the hardware
    /// slot, an exception in the exception slot.
    pub fn interrupt(&mut self, interrupt: Interrupt)
        requires
            old(self).wf(),
        ensures
            final(self).wf(),
            final(self)@ == match interrupt {
                Interrupt::Request(v) => CpuView { next_interrupt: Some(v), ..old(self)@ },
                Interrupt::Exception(e) => old(self)@.raise(e),
            },
    {
        match interrupt {
            Interrupt::Request(vector) => {
                self.next_interrupt = Some(vector);
            },
            Interrupt::Exception(exception) => {
                self.raise_exception(exception);
            },
        }
    }

    /// One step: deliver a pending event, then fetch, decode and execute the
    /// instruction at the instruction pointer. Does nothing once halted or
    /// dead.
    pub fn execute_memory_instruction(&mut self)
        requires
            old(self).wf(),
        ensures
            final(self).wf(),
            final(self)@ == old(self)@.step(),
    {
        if self.halted || self.bus.memory.fatal().is_some() || self.bus.fatal.is_some() {
            return;
        }
        self.dispatch();
        let ip = self.instruction_pointer;
        if let Some(half) = self.bus.memory.read_16(ip) {
            match Instruction::from_half(half) {
                None => {
                    self.raise_exception(Exception::InvalidOpcode(half as u32));
                },
                Some(instruction) => {
                    if let Some(next) = self.execute_instruction(instruction, half) {
                        self.instruction_pointer = next;
                    }
                },
            }
        }
        self.collect();
    }

    /// The error that ended the machine, if one did.
    pub fn fatal(&self) -> (r: Option<FatalError>)
        requires
            self.wf(),
        ensures
            r == match self@.mem.fatal {
                Some(e) => Some(e),
                None => self@.io.fatal,
            },
    {
        match self.bus.memory.fatal() {
            Some(e) => Some(e),
            None => self.bus.fatal,
        }
    }
}

} // verus!
