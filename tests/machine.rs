use fox32::alu::{compute, AluOp, Flag};
use fox32::bus::Bus;
use fox32::cpu::{Cpu, Exception, Interrupt};
use fox32::instruction::{Condition, Instruction, Operand, Size};
use fox32::memory::Memory;

const ROM: u32 = 0xF000_0000;

/// The opcode half: size, operation, condition, destination and source kinds.
fn half(size: u16, op: u16, cond: u16, dst: u16, src: u16) -> [u8; 2] {
    let h = (size << 14) | (op << 8) | (cond << 4) | (dst << 2) | src;
    h.to_le_bytes()
}

fn machine(program: &[u8]) -> Cpu {
    Cpu::new(Bus::new(Memory::new(program)))
}

fn ram32(cpu: &mut Cpu, address: u32) -> u32 {
    let mmu = cpu.bus.memory.mmu_enabled();
    cpu.bus.memory.set_mmu_enabled(false);
    let v = cpu.bus.memory.read_32(address).unwrap();
    cpu.bus.memory.set_mmu_enabled(mmu);
    v
}

fn ram8(cpu: &mut Cpu, address: u32) -> u8 {
    let mmu = cpu.bus.memory.mmu_enabled();
    cpu.bus.memory.set_mmu_enabled(false);
    let v = cpu.bus.memory.read_8(address).unwrap();
    cpu.bus.memory.set_mmu_enabled(mmu);
    v
}

#[test]
fn hello_byte_reaches_terminal() {
    // out r0, 'A' (r0 holds port 0); halt
    let mut p = Vec::new();
    p.extend_from_slice(&half(0, 0x1B, 0, 0, 2));
    p.push(b'A');
    p.push(0);
    p.extend_from_slice(&half(0, 0x10, 0, 0, 0));
    let mut cpu = machine(&p);
    cpu.execute_memory_instruction();
    cpu.execute_memory_instruction();
    assert!(cpu.halted);
    assert_eq!(cpu.bus.take_terminal_output(), vec![b'A']);
    assert_eq!(cpu.instruction_pointer, ROM + 6);
}

#[test]
fn add_carry_wraps_to_zero() {
    // add.32 r0, 1
    let mut p = Vec::new();
    p.extend_from_slice(&half(2, 0x01, 0, 0, 2));
    p.extend_from_slice(&1u32.to_le_bytes());
    p.push(0);
    let mut cpu = machine(&p);
    cpu.register[0] = 0xFFFF_FFFF;
    cpu.execute_memory_instruction();
    assert_eq!(cpu.register[0], 0);
    assert!(cpu.flag.zero);
    assert!(cpu.flag.carry);
    assert_eq!(cpu.instruction_pointer, ROM + 7);
}

#[test]
fn divide_by_zero_enters_handler() {
    // div.32 r0, 0
    let mut p = Vec::new();
    p.extend_from_slice(&half(2, 0x22, 0, 0, 2));
    p.extend_from_slice(&0u32.to_le_bytes());
    p.push(0);
    let mut cpu = machine(&p);
    cpu.register[0] = 10;
    cpu.stack_pointer = 0x10000;
    assert!(cpu.bus.memory.write_32(256 * 4, 0x8000));
    cpu.execute_memory_instruction();
    assert_eq!(cpu.next_exception, Some(0));
    assert_eq!(cpu.next_exception_operand, None);
    assert_eq!(cpu.instruction_pointer, ROM);
    assert_eq!(cpu.register[0], 10);
    cpu.execute_memory_instruction();
    // the handler's first instruction (a nop of zero bytes) has run
    assert_eq!(cpu.instruction_pointer, 0x8002);
    assert_eq!(cpu.stack_pointer, 0x10000 - 5);
    let sp = cpu.stack_pointer;
    assert_eq!(ram8(&mut cpu, sp), 0);
    assert_eq!(ram32(&mut cpu, sp + 1), ROM);
}

#[test]
fn page_fault_read_stacks_address() {
    // mov.8 r0, [0x10000000]
    let mut p = Vec::new();
    p.extend_from_slice(&half(0, 0x17, 0, 0, 3));
    p.extend_from_slice(&0x1000_0000u32.to_le_bytes());
    p.push(0);
    let mut cpu = machine(&p);
    let m = &mut cpu.bus.memory;
    // directory at 0x1000: ROM's page through the table at 0x2000, the
    // first 4 MiB through the table at 0x3000
    assert!(m.write_32(0x1000 + 0x3C0 * 4, 0x2001));
    assert!(m.write_32(0x2000, 0xF000_0001));
    assert!(m.write_32(0x1000, 0x3001));
    assert!(m.write_32(0x3000 + 5 * 4, 0x5003));
    assert!(m.write_32((256 + 2) * 4, ROM + 0x100));
    m.flush_tlb(Some(0x1000));
    m.set_mmu_enabled(true);
    cpu.stack_pointer = 0x6000;
    cpu.execute_memory_instruction();
    assert_eq!(cpu.next_exception, Some(2));
    assert_eq!(cpu.next_exception_operand, Some(0x1000_0000));
    assert_eq!(cpu.instruction_pointer, ROM);
    cpu.execute_memory_instruction();
    assert_eq!(cpu.instruction_pointer, ROM + 0x102);
    assert_eq!(cpu.stack_pointer, 0x6000 - 9);
    let sp = cpu.stack_pointer;
    assert_eq!(ram32(&mut cpu, sp), 0x1000_0000);
    assert_eq!(ram32(&mut cpu, sp + 5), ROM);
}

#[test]
fn jump_if_zero_after_compare() {
    // cmp.32 r0, r0; jmp.z 0xDEAD
    let mut p = Vec::new();
    p.extend_from_slice(&half(2, 0x07, 0, 0, 0));
    p.push(0);
    p.push(0);
    p.extend_from_slice(&half(2, 0x08, 1, 0, 2));
    p.extend_from_slice(&0xDEADu32.to_le_bytes());
    let mut cpu = machine(&p);
    cpu.register[0] = 1234;
    cpu.execute_memory_instruction();
    assert!(cpu.flag.zero);
    cpu.execute_memory_instruction();
    assert_eq!(cpu.instruction_pointer, 0xDEAD);
}

#[test]
fn jump_if_zero_falls_through_when_clear() {
    let mut p = Vec::new();
    p.extend_from_slice(&half(2, 0x08, 1, 0, 2));
    p.extend_from_slice(&0xDEADu32.to_le_bytes());
    let mut cpu = machine(&p);
    cpu.execute_memory_instruction();
    assert_eq!(cpu.instruction_pointer, ROM + 6);
}

#[test]
fn int_then_reti_restores_ip_and_flags() {
    // int 0x20 (imm8); the handler at 0x8000 is reti
    let mut p = Vec::new();
    p.extend_from_slice(&half(0, 0x2C, 0, 0, 2));
    p.push(0x20);
    let mut cpu = machine(&p);
    assert!(cpu.bus.memory.write_32(0x20 * 4, 0x8000));
    assert!(cpu.bus.memory.write_16(0x8000, u16::from_le_bytes(half(0, 0x3A, 0, 0, 0))));
    cpu.stack_pointer = 0x10000;
    cpu.flag = Flag { swap_sp: false, interrupt: true, carry: true, zero: false };
    cpu.execute_memory_instruction();
    assert_eq!(cpu.next_soft_interrupt, Some(0x20));
    assert_eq!(cpu.instruction_pointer, ROM + 3);
    // delivers the interrupt and runs reti
    cpu.execute_memory_instruction();
    assert_eq!(cpu.instruction_pointer, ROM + 3);
    assert_eq!(cpu.flag, Flag { swap_sp: false, interrupt: true, carry: true, zero: false });
    assert_eq!(cpu.stack_pointer, 0x10000);
}

#[test]
fn interrupt_frame_holds_flags_and_return_address() {
    let mut cpu = machine(&[]);
    assert!(cpu.bus.memory.write_32(0x20 * 4, 0x8000));
    cpu.stack_pointer = 0x10000;
    cpu.flag = Flag { swap_sp: false, interrupt: true, carry: false, zero: true };
    cpu.instruction_pointer = 0x4000;
    cpu.handle_interrupt(0x20);
    assert_eq!(cpu.instruction_pointer, 0x8000);
    assert!(!cpu.flag.interrupt);
    let sp = cpu.stack_pointer;
    assert_eq!(sp, 0x10000 - 5);
    assert_eq!(ram8(&mut cpu, sp), 0b0101);
    assert_eq!(ram32(&mut cpu, sp + 1), 0x4000);
}

#[test]
fn swap_sp_round_trip_restores_stack_pointer() {
    let mut cpu = machine(&[]);
    assert!(cpu.bus.memory.write_32(0x20 * 4, 0x8000));
    assert!(cpu.bus.memory.write_16(0x8000, u16::from_le_bytes(half(0, 0x3A, 0, 0, 0))));
    cpu.stack_pointer = 0x10000;
    cpu.exception_stack_pointer = 0x20000;
    cpu.flag = Flag { swap_sp: true, interrupt: true, carry: false, zero: false };
    cpu.instruction_pointer = 0x4000;
    cpu.handle_interrupt(0x20);
    assert_eq!(cpu.stack_pointer, 0x20000 - 9);
    assert!(!cpu.flag.swap_sp);
    cpu.execute_memory_instruction();
    assert_eq!(cpu.stack_pointer, 0x10000);
    assert_eq!(cpu.instruction_pointer, 0x4000);
    assert!(cpu.flag.swap_sp);
}

#[test]
fn failed_condition_keeps_flags() {
    // add.z.32 r0, 1 with zero clear
    let mut p = Vec::new();
    p.extend_from_slice(&half(2, 0x01, 1, 0, 2));
    p.extend_from_slice(&1u32.to_le_bytes());
    p.push(0);
    let mut cpu = machine(&p);
    cpu.register[0] = 0xFFFF_FFFF;
    cpu.flag = Flag { swap_sp: false, interrupt: false, carry: true, zero: false };
    cpu.execute_memory_instruction();
    assert_eq!(cpu.register[0], 0xFFFF_FFFF);
    assert_eq!(cpu.flag, Flag { swap_sp: false, interrupt: false, carry: true, zero: false });
    assert_eq!(cpu.instruction_pointer, ROM + 7);
}

#[test]
fn byte_mov_keeps_upper_register_bits() {
    // mov.8 r1, 0x7F ; movz.8 r2, 0x7F
    let mut p = Vec::new();
    p.extend_from_slice(&half(0, 0x17, 0, 0, 2));
    p.push(0x7F);
    p.push(1);
    p.extend_from_slice(&half(0, 0x27, 0, 0, 2));
    p.push(0x7F);
    p.push(2);
    let mut cpu = machine(&p);
    cpu.register[1] = 0x1234_5678;
    cpu.register[2] = 0x1234_5678;
    cpu.execute_memory_instruction();
    cpu.execute_memory_instruction();
    assert_eq!(cpu.register[1], 0x1234_567F);
    assert_eq!(cpu.register[2], 0x7F);
}

#[test]
fn invalid_opcode_raises_exception() {
    let p = [0xFF, 0xFF];
    let mut cpu = machine(&p);
    cpu.execute_memory_instruction();
    assert_eq!(cpu.next_exception, Some(1));
    assert_eq!(cpu.next_exception_operand, Some(0xFFFF));
}

#[test]
fn immediate_destination_is_invalid() {
    // inc.32 with an immediate operand
    let p = half(2, 0x11, 0, 0, 2);
    let mut cpu = machine(&p);
    cpu.execute_memory_instruction();
    assert_eq!(cpu.next_exception, Some(1));
}

#[test]
fn push_pop_round_trip() {
    // push.32 0xCAFEBABE ; pop.32 r3
    let mut p = Vec::new();
    p.extend_from_slice(&half(2, 0x0A, 0, 0, 2));
    p.extend_from_slice(&0xCAFE_BABEu32.to_le_bytes());
    p.extend_from_slice(&half(2, 0x1A, 0, 0, 0));
    p.push(3);
    let mut cpu = machine(&p);
    cpu.stack_pointer = 0x1000;
    cpu.execute_memory_instruction();
    assert_eq!(cpu.stack_pointer, 0xFFC);
    cpu.execute_memory_instruction();
    assert_eq!(cpu.stack_pointer, 0x1000);
    assert_eq!(cpu.register[3], 0xCAFE_BABE);
}

#[test]
fn loop_counts_down_r31() {
    // loop 0x1234 with r31 = 2: taken; again with r31 = 1: falls through
    let mut p = Vec::new();
    p.extend_from_slice(&half(2, 0x28, 0, 0, 2));
    p.extend_from_slice(&0x1234u32.to_le_bytes());
    let mut cpu = machine(&p);
    cpu.register[31] = 2;
    cpu.execute_memory_instruction();
    assert_eq!(cpu.register[31], 1);
    assert_eq!(cpu.instruction_pointer, 0x1234);
    cpu.instruction_pointer = ROM;
    cpu.execute_memory_instruction();
    assert_eq!(cpu.register[31], 0);
    assert_eq!(cpu.instruction_pointer, ROM + 6);
}

#[test]
fn hardware_interrupt_waits_for_flag() {
    let mut cpu = machine(&[]);
    assert!(cpu.bus.memory.write_32(0xFF * 4, 0x8000));
    cpu.stack_pointer = 0x10000;
    cpu.interrupt(Interrupt::Request(0xFF));
    cpu.execute_memory_instruction();
    assert_eq!(cpu.next_interrupt, Some(0xFF));
    assert_eq!(cpu.instruction_pointer, ROM + 2);
    cpu.flag.interrupt = true;
    cpu.execute_memory_instruction();
    assert_eq!(cpu.next_interrupt, None);
    assert_eq!(cpu.instruction_pointer, 0x8002);
}

#[test]
fn exception_posted_from_outside_is_delivered() {
    let mut cpu = machine(&[]);
    assert!(cpu.bus.memory.write_32((256 + 3) * 4, 0x9000));
    cpu.stack_pointer = 0x10000;
    cpu.interrupt(Interrupt::Exception(Exception::PageFaultWrite(0x44)));
    cpu.execute_memory_instruction();
    assert_eq!(cpu.instruction_pointer, 0x9002);
    let sp = cpu.stack_pointer;
    assert_eq!(ram32(&mut cpu, sp), 0x44);
}

#[test]
fn rom_write_ends_machine() {
    // mov.8 [0xF0000000], 1
    let mut p = Vec::new();
    p.extend_from_slice(&half(0, 0x17, 0, 3, 2));
    p.push(1);
    p.extend_from_slice(&ROM.to_le_bytes());
    let mut cpu = machine(&p);
    cpu.execute_memory_instruction();
    assert_eq!(cpu.fatal(), Some(fox32::cpu::FatalError::RomWrite(ROM)));
    let ip = cpu.instruction_pointer;
    cpu.execute_memory_instruction();
    assert_eq!(cpu.instruction_pointer, ip);
}

#[test]
fn decoder_reads_fields() {
    let h = u16::from_le_bytes(half(1, 0x01, 5, 1, 3));
    assert_eq!(
        Instruction::from_half(h),
        Some(Instruction::Add(Size::Half, Condition::GreaterThan, Operand::RegisterPtr(Size::Half), Operand::ImmediatePtr(Size::Half)))
    );
    assert_eq!(Instruction::from_half(u16::from_le_bytes(half(3, 0x00, 0, 0, 0))), None);
    assert_eq!(Instruction::from_half(u16::from_le_bytes(half(0, 0x00, 7, 0, 0))), None);
    assert_eq!(Instruction::from_half(u16::from_le_bytes(half(0, 0x01, 0, 2, 0))), None);
    assert_eq!(Instruction::from_half(u16::from_le_bytes(half(0, 0x3F, 0, 0, 0))), None);
    assert_eq!(Instruction::from_half(u16::from_le_bytes(half(0, 0x17, 0, 0, 2))), Some(Instruction::Mov(Size::Byte, Condition::Always, Operand::Register, Operand::Immediate8)));
}

#[test]
fn flag_byte_round_trip() {
    let f = Flag { swap_sp: true, interrupt: false, carry: true, zero: false };
    assert_eq!(f.to_byte(), 0b1010);
    assert_eq!(Flag::from_byte(0b1010), f);
    assert_eq!(Flag::from_byte(0b0101), Flag { swap_sp: false, interrupt: true, carry: false, zero: true });
}

#[test]
fn registers_by_number() {
    let mut cpu = machine(&[]);
    cpu.write_register(32, 11);
    cpu.write_register(33, 22);
    cpu.write_register(34, 33);
    cpu.write_register(7, 44);
    assert_eq!(cpu.stack_pointer, 11);
    assert_eq!(cpu.exception_stack_pointer, 22);
    assert_eq!(cpu.frame_pointer, 33);
    assert_eq!(cpu.read_register(7), 44);
    assert_eq!(cpu.read_register(34), 33);
}

#[test]
fn flag_conversions() {
    let f = Flag { swap_sp: false, interrupt: true, carry: true, zero: true };
    assert_eq!(u8::from(f), 0b0111);
    assert_eq!(Flag::from(0b1000u8), Flag { swap_sp: true, interrupt: false, carry: false, zero: false });
}

#[test]
fn hello_byte_stored_in_ram_by_mov() {
    // mov.8 [0x00000000], 'A'; halt
    let mut p = Vec::new();
    p.extend_from_slice(&half(0, 0x17, 0, 3, 2));
    p.push(b'A');
    p.extend_from_slice(&0u32.to_le_bytes());
    p.extend_from_slice(&half(0, 0x10, 0, 0, 0));
    let mut cpu = machine(&p);
    cpu.execute_memory_instruction();
    cpu.execute_memory_instruction();
    assert!(cpu.halted);
    assert_eq!(ram8(&mut cpu, 0), b'A');
    assert!(cpu.bus.take_terminal_output().is_empty());
}

#[test]
fn shifts_and_rotates_set_carry_from_bit_out() {
    let f = Flag { swap_sp: false, interrupt: false, carry: false, zero: false };
    assert_eq!(compute(AluOp::Sla, Size::Byte, 0x81, 1, f), Some((0x02, Flag { carry: true, ..f })));
    assert_eq!(compute(AluOp::Srl, Size::Byte, 0x81, 1, f), Some((0x40, Flag { carry: true, ..f })));
    assert_eq!(compute(AluOp::Sra, Size::Byte, 0x80, 2, f), Some((0xE0, f)));
    assert_eq!(compute(AluOp::Rol, Size::Half, 0x8001, 1, f), Some((0x0003, Flag { carry: true, ..f })));
    assert_eq!(compute(AluOp::Ror, Size::Word, 0x0000_0001, 1, f), Some((0x8000_0000, Flag { carry: true, ..f })));
    assert_eq!(compute(AluOp::Sla, Size::Byte, 0x01, 9, f), Some((0x02, f)));
    assert_eq!(compute(AluOp::Sub, Size::Byte, 1, 2, f), Some((0xFF, Flag { carry: true, ..f })));
    assert_eq!(compute(AluOp::Mul, Size::Half, 0x100, 0x100, f), Some((0, Flag { carry: true, zero: true, ..f })));
    assert_eq!(compute(AluOp::Div, Size::Word, 7, 0, f), None);
    assert_eq!(compute(AluOp::Rem, Size::Word, 7, 3, f), Some((1, f)));
    assert_eq!(compute(AluOp::Not, Size::Byte, 0x0F, 0, f), Some((0xF0, f)));
    assert_eq!(compute(AluOp::Bts, Size::Word, 0b100, 2, f), Some((0b100, f)));
    assert_eq!(compute(AluOp::Bts, Size::Word, 0b100, 1, f), Some((0, Flag { zero: true, ..f })));
    assert_eq!(compute(AluOp::Bse, Size::Word, 0, 31, f), Some((0x8000_0000, f)));
    assert_eq!(compute(AluOp::Bcl, Size::Byte, 0xFF, 3, f), Some((0xF7, f)));
}
