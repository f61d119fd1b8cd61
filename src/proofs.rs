use vstd::prelude::*;
use crate::alu::{alu_flags, AluOp, Flag};
use crate::cpu::{flag_byte, flag_of_byte, CpuView};
use crate::cpu::{condition_holds, Location};
use crate::instruction::{Condition, Operand, Size};
use crate::memory::{byte_of, le16, le32, wadd, MemoryPage, MemoryView, page_of, MEMORY_RAM_SIZE, MEMORY_ROM_START};

verus! {

proof fn lemma_identity_frame(v: u32)
    ensures
        page_of(v) | (v & 0xFFF) == v,
{
    assert((v & 0xFFFFF000) | (v & 0xFFF) == v) by (bit_vector);
}

/// With the MMU off, addresses are physical: a read of an address finds the
/// byte at that physical address, and a write to RAM stores it there.
pub proof fn lemma_mmu_off_is_physical(m: MemoryView, v: u32, b: u8)
    requires
        !m.mmu_enabled,
    ensures
        m.read8(v).1 == m.phys_byte(v),
        v < m.ram.len() && v < MEMORY_ROM_START ==> m.write8(v, b) == (MemoryView { ram: m.ram.update(v as int, b), ..m }, true),
{
    reveal(MemoryView::read8);
    reveal(MemoryView::write8);
}

/// With the MMU on and the page of `v` mapped onto itself, writable, reads and
/// writes of `v` find and store the same bytes as with the MMU off.
pub proof fn lemma_identity_mapping_agrees(m: MemoryView, v: u32, b: u8)
    requires
        m.mmu_enabled,
        m.tlb.contains_key(page_of(v)) ==> m.tlb[page_of(v)] == (MemoryPage {
            physical_address: page_of(v),
            present: true,
            rw: true,
        }),
        !m.tlb.contains_key(page_of(v)) ==> m.walk(v) == Some(
            MemoryPage { physical_address: page_of(v), present: true, rw: true },
        ),
    ensures
        m.read8(v).1 == (MemoryView { mmu_enabled: false, ..m }).read8(v).1,
        m.write8(v, b).1 == (MemoryView { mmu_enabled: false, ..m }).write8(v, b).1,
        m.write8(v, b).0.ram == (MemoryView { mmu_enabled: false, ..m }).write8(v, b).0.ram,
{
    reveal(MemoryView::read8);
    reveal(MemoryView::write8);
    lemma_identity_frame(v);
    assert(m.translate(v) == Some((v, true)));
}

/// Once the cache entry of a page is dropped, the next translation of an
/// address in that page walks the tables again, and caches what it finds.
pub proof fn lemma_flush_page_rewalks(m: MemoryView, v: u32)
    ensures
        ({
            let f = MemoryView { tlb: m.tlb.remove(page_of(v)), ..m };
            &&& f.translate(v) == match m.walk(v) {
                Some(e) => Some((e.physical_address | (v & 0xFFF), e.rw)),
                None => None,
            }
            &&& f.tlb_after(v) == match m.walk(v) {
                Some(e) => f.tlb.insert(page_of(v), e),
                None => f.tlb,
            }
        }),
{
    reveal(MemoryView::phys_word);
}


proof fn lemma_word_bytes(w: u32)
    ensures
        le32(byte_of(w, 0), byte_of(w, 1), byte_of(w, 2), byte_of(w, 3)) == w,
{
    assert(((((w >> 0u32) & 0xFF) as u8) as u32) | (((((w >> 8u32) & 0xFF) as u8) as u32) << 8) | (((((w >> 16u32)
        & 0xFF) as u8) as u32) << 16) | (((((w >> 24u32) & 0xFF) as u8) as u32) << 24) == w) by (bit_vector);
}

proof fn lemma_halves(b0: u8, b1: u8, b2: u8, b3: u8)
    ensures
        (le16(b0, b1) as u32) | ((le16(b2, b3) as u32) << 16) == le32(b0, b1, b2, b3),
{
    assert((((b0 as u16) | ((b1 as u16) << 8)) as u32) | ((((b2 as u16) | ((b3 as u16) << 8)) as u32) << 16) == (b0 as u32)
        | ((b1 as u32) << 8) | ((b2 as u32) << 16) | ((b3 as u32) << 24)) by (bit_vector);
}

proof fn lemma_flag_byte(f: Flag)
    ensures
        flag_of_byte(flag_byte(f)) == f,
{
    let b = flag_byte(f);
    let (s, i, c, z) = (f.swap_sp, f.interrupt, f.carry, f.zero);
    assert(b == (((if s { 8u8 } else { 0u8 }) | (if i { 4u8 } else { 0u8 }) | (if c { 2u8 } else { 0u8 }) | (if z { 1u8 } else { 0u8 })) as u8));
    assert((b & 8 != 0) == s && (b & 4 != 0) == i && (b & 2 != 0) == c && (b & 1 != 0) == z) by (bit_vector)
        requires b == (((if s { 8u8 } else { 0u8 }) | (if i { 4u8 } else { 0u8 }) | (if c { 2u8 } else { 0u8 }) | (if z { 1u8 } else { 0u8 })) as u8);
}

/// With the MMU off, a byte write to RAM stores the byte and nothing else.
proof fn lemma_write8_plain(m: MemoryView, a: u32, b: u8)
    requires
        m.wf(),
        !m.mmu_enabled,
        a < MEMORY_RAM_SIZE,
    ensures
        m.write8(a, b) == (MemoryView { ram: m.ram.update(a as int, b), ..m }, true),
{
    reveal(MemoryView::write8);
}

/// With the MMU off, a byte read of RAM finds the byte and changes nothing.
proof fn lemma_read8_plain(m: MemoryView, a: u32)
    requires
        m.wf(),
        !m.mmu_enabled,
        a < MEMORY_RAM_SIZE,
    ensures
        m.read8(a) == (m, Some(m.ram[a as int])),
{
    reveal(MemoryView::read8);
}

proof fn lemma_write32_plain(m: MemoryView, a: u32, w: u32)
    requires
        m.wf(),
        !m.mmu_enabled,
        a + 4 <= MEMORY_RAM_SIZE,
    ensures
        m.write32(a, w) == (MemoryView {
            ram: m.ram.update(a as int, byte_of(w, 0)).update(a + 1, byte_of(w, 1)).update(a + 2, byte_of(w, 2)).update(
                a + 3,
                byte_of(w, 3),
            ),
            ..m
        }, true),
{
    lemma_write8_plain(m, a, byte_of(w, 0));
    let m1 = m.write8(a, byte_of(w, 0)).0;
    lemma_write8_plain(m1, wadd(a, 1), byte_of(w, 1));
    let m2 = m1.write8(wadd(a, 1), byte_of(w, 1)).0;
    lemma_write8_plain(m2, wadd(a, 2), byte_of(w, 2));
    let m3 = m2.write8(wadd(a, 2), byte_of(w, 2)).0;
    lemma_write8_plain(m3, wadd(a, 3), byte_of(w, 3));
}

proof fn lemma_read32_plain(m: MemoryView, a: u32)
    requires
        m.wf(),
        !m.mmu_enabled,
        a + 4 <= MEMORY_RAM_SIZE,
    ensures
        m.read32(a) == (m, Some(le32(m.ram[a as int], m.ram[a + 1], m.ram[a + 2], m.ram[a + 3]))),
{
    lemma_read8_plain(m, a);
    lemma_read8_plain(m, wadd(a, 1));
    lemma_read8_plain(m, wadd(a, 2));
    lemma_read8_plain(m, wadd(wadd(a, 2), 1));
    lemma_halves(m.ram[a as int], m.ram[a + 1], m.ram[a + 2], m.ram[a + 3]);
}

/// A word pushed with the MMU off onto a stack in RAM, and popped again.
proof fn lemma_push_pop_word(s: CpuView, v: u32)
    requires
        s.mem.wf(),
        !s.mem.mmu_enabled,
        4 <= s.sp <= MEMORY_RAM_SIZE,
    ensures
        s.push(Size::Word, v).1,
        s.push(Size::Word, v).0 == (CpuView {
            sp: (s.sp - 4) as u32,
            mem: s.mem.write32((s.sp - 4) as u32, v).0,
            ..s
        }),
        s.push(Size::Word, v).0.mem.wf(),
        s.push(Size::Word, v).0.mem == (MemoryView {
            ram: s.mem.ram.update(s.sp - 4, byte_of(v, 0)).update(s.sp - 3, byte_of(v, 1)).update(s.sp - 2, byte_of(v, 2)).update(
                s.sp - 1,
                byte_of(v, 3),
            ),
            ..s.mem
        }),
        s.push(Size::Word, v).0.pop(Size::Word) == (CpuView { mem: s.push(Size::Word, v).0.mem, ..s }, Some(v)),
{
    reveal(CpuView::push);
    reveal(CpuView::pop);
    reveal(CpuView::wr);
    reveal(CpuView::rd);
    let a = (s.sp - 4) as u32;
    assert(wadd(s.sp, -4) == a);
    lemma_write32_plain(s.mem, a, v);
    let t = s.push(Size::Word, v).0;
    lemma_read32_plain(t.mem, a);
    lemma_word_bytes(v);
    assert(wadd(a, 4) == s.sp);
}

proof fn lemma_push_pop_byte(s: CpuView, v: u8)
    requires
        s.mem.wf(),
        !s.mem.mmu_enabled,
        1 <= s.sp <= MEMORY_RAM_SIZE,
    ensures
        s.push(Size::Byte, v as u32).1,
        s.push(Size::Byte, v as u32).0 == (CpuView {
            sp: (s.sp - 1) as u32,
            mem: MemoryView { ram: s.mem.ram.update(s.sp - 1, v), ..s.mem },
            ..s
        }),
        s.push(Size::Byte, v as u32).0.pop(Size::Byte) == (CpuView { mem: s.push(Size::Byte, v as u32).0.mem, ..s }, Some(v as u32)),
{
    reveal(CpuView::push);
    reveal(CpuView::pop);
    reveal(CpuView::wr);
    reveal(CpuView::rd);
    let a = (s.sp - 1) as u32;
    assert(wadd(s.sp, -1) == a);
    assert((v as u32) as u8 == v);
    lemma_write8_plain(s.mem, a, v);
    let t = s.push(Size::Byte, v as u32).0;
    lemma_read8_plain(t.mem, a);
    assert(wadd(a, 1) == s.sp);
}


proof fn lemma_pop_word_plain(t: CpuView)
    requires
        t.mem.wf(),
        !t.mem.mmu_enabled,
        t.sp + 4 <= MEMORY_RAM_SIZE,
    ensures
        t.pop(Size::Word) == (CpuView { sp: (t.sp + 4) as u32, ..t }, Some(
            le32(t.mem.ram[t.sp as int], t.mem.ram[t.sp + 1], t.mem.ram[t.sp + 2], t.mem.ram[t.sp + 3]),
        )),
{
    reveal(CpuView::pop);
    reveal(CpuView::rd);
    lemma_read32_plain(t.mem, t.sp);
    assert(wadd(t.sp, 4) == t.sp + 4);
}

proof fn lemma_pop_byte_plain(t: CpuView)
    requires
        t.mem.wf(),
        !t.mem.mmu_enabled,
        t.sp + 1 <= MEMORY_RAM_SIZE,
    ensures
        t.pop(Size::Byte) == (CpuView { sp: (t.sp + 1) as u32, ..t }, Some(t.mem.ram[t.sp as int] as u32)),
{
    reveal(CpuView::pop);
    reveal(CpuView::rd);
    lemma_read8_plain(t.mem, t.sp);
    assert(wadd(t.sp, 1) == t.sp + 1);
}

/// Entering the handler in slot `slot` of the vector table, with the MMU
/// off and the stack in RAM: the flag byte lies on top of the stack and the
/// return address under it; `ip` is the handler address that the table
/// holds; interrupts are off. A `reti` right there returns to the old `ip`
/// with the old flags and the old stack pointer, whether or not the entry
/// swapped to the exception stack.
pub proof fn lemma_enter_then_reti(s: CpuView, slot: u32)
    requires
        s.mem.wf(),
        !s.mem.mmu_enabled,
        slot < 512,
        !s.flag.swap_sp ==> 5 <= s.sp <= MEMORY_RAM_SIZE,
        s.flag.swap_sp ==> 9 <= s.esp <= MEMORY_RAM_SIZE,
    ensures
        ({
            let t = s.enter(slot, None);
            let r = s.mem.ram;
            let top = t.sp as int;
            &&& t.ip == le32(r[4 * slot as int], r[4 * slot + 1], r[4 * slot + 2], r[4 * slot + 3])
            &&& !t.flag.interrupt && !t.flag.swap_sp
            &&& t.sp == (if s.flag.swap_sp { s.esp - 9 } else { s.sp - 5 })
            &&& t.mem.ram[top] == flag_byte(s.flag)
            &&& le32(t.mem.ram[top + 1], t.mem.ram[top + 2], t.mem.ram[top + 3], t.mem.ram[top + 4]) == s.ip
            &&& t.exec_reti(Condition::Always).1 == Some(s.ip)
            &&& t.exec_reti(Condition::Always).0.flag == s.flag
            &&& t.exec_reti(Condition::Always).0.sp == s.sp
        }),
{
    reveal(CpuView::enter);
    reveal(CpuView::exec_reti);
    let a = wadd(0, slot as int * 4);
    assert(a == 4 * slot);
    lemma_read32_plain(s.mem, a);
    let s2 = s;
    assert(s.with_mem(MemoryView { mmu_enabled: false, ..s.mem }) == s);
    let s3 = if s.flag.swap_sp {
        CpuView { sp: s.esp, ..s }.push(Size::Word, s.sp).0
    } else {
        s
    };
    if s.flag.swap_sp {
        lemma_push_pop_word(CpuView { sp: s.esp, ..s }, s.sp);
    }
    lemma_push_pop_word(s3, s3.ip);
    let s4 = s3.push(Size::Word, s3.ip).0;
    lemma_push_pop_byte(s4, flag_byte(s4.flag));
    let s5 = s4.push(Size::Byte, flag_byte(s4.flag) as u32).0;
    let t = s.enter(slot, None);
    assert(t == CpuView { flag: Flag { interrupt: false, swap_sp: false, ..s5.flag }, ip: le32(
        s.mem.ram[4 * slot as int],
        s.mem.ram[4 * slot + 1],
        s.mem.ram[4 * slot + 2],
        s.mem.ram[4 * slot + 3],
    ), ..s5 });
    lemma_word_bytes(s.ip);
    lemma_pop_byte_plain(t);
    let (t1, fb) = t.pop(Size::Byte);
    assert(fb == Some(flag_byte(s.flag) as u32));
    lemma_flag_byte(s.flag);
    lemma_pop_word_plain(t1);
    let (t2, ip) = t1.pop(Size::Word);
    assert(ip == Some(s.ip));
    if s.flag.swap_sp {
        lemma_word_bytes(s.sp);
        lemma_pop_word_plain(t2);
    }
}

/// A software interrupt waiting while interrupts are on and no exception
/// waits is what the next dispatch enters.
pub proof fn lemma_soft_interrupt_dispatch(s: CpuView, v: u8)
    requires
        s.next_exception is None,
        s.next_soft_interrupt == Some(v),
        s.flag.interrupt,
    ensures
        s.dispatch() == (CpuView { next_soft_interrupt: None, ..s }).enter(v as u32, None),
{
    reveal(CpuView::dispatch);
}


/// `int v` (which queues `v`) delivered with interrupts on, no exception
/// waiting, no stack swap and the MMU off: the flag byte on top of the
/// stack, the return address under it, and `ip` the handler address that
/// the vector table holds for `v`.
pub proof fn lemma_interrupt_frame(s: CpuView, v: u8)
    requires
        s.mem.wf(),
        !s.mem.mmu_enabled,
        s.next_exception is None,
        s.next_soft_interrupt == Some(v),
        s.flag.interrupt,
        !s.flag.swap_sp,
        5 <= s.sp <= MEMORY_RAM_SIZE,
    ensures
        ({
            let t = s.dispatch();
            let r = s.mem.ram;
            let top = t.sp as int;
            &&& t.ip == le32(r[4 * v as int], r[4 * v + 1], r[4 * v + 2], r[4 * v + 3])
            &&& t.sp == s.sp - 5
            &&& t.mem.ram[top] == flag_byte(s.flag)
            &&& le32(t.mem.ram[top + 1], t.mem.ram[top + 2], t.mem.ram[top + 3], t.mem.ram[top + 4]) == s.ip
            &&& !t.flag.interrupt
        }),
{
    lemma_soft_interrupt_dispatch(s, v);
    lemma_enter_then_reti(CpuView { next_soft_interrupt: None, ..s }, v as u32);
}

/// Fetching operands, loading and storing never touch the flags.
proof fn lemma_operands_keep_flags(s: CpuView, size: Size, src: Operand, dst: Operand, off: u32, loc: Location, v: u32, opcode: u16)
    ensures
        s.source(src, opcode).0.flag == s.flag,
        s.destination(dst, off, opcode).0.flag == s.flag,
        s.load(loc, size).0.flag == s.flag,
        s.store(loc, size, v, false).0.flag == s.flag,
{
    reveal(CpuView::source);
    reveal(CpuView::destination);
    reveal(CpuView::load);
    reveal(CpuView::store);
    reveal(CpuView::rd);
    reveal(CpuView::wr);
}

/// An arithmetic or logic instruction whose condition fails leaves the
/// flags as they were. One whose condition holds and that completes leaves
/// the flags that its operation defines on the operands it fetched.
pub proof fn lemma_flags_follow_condition(s: CpuView, op: AluOp, size: Size, c: Condition, dst: Operand, src: Operand, opcode: u16)
    ensures
        ({
            let (t, r) = s.exec_alu(op, size, c, dst, src, opcode);
            let (s1, rs) = s.source(src, opcode);
            let (s2, rd) = s1.destination(dst, rs.unwrap().1, opcode);
            let (s3, ra) = s2.load(rd.unwrap().0, size);
            &&& !condition_holds(s.flag, c) ==> t.flag == s.flag
            &&& condition_holds(s.flag, c) && r is Some ==> t.flag == alu_flags(op, size, ra.unwrap(), rs.unwrap().0, s.flag)
        }),
{
    reveal(CpuView::exec_alu);
    reveal(CpuView::exec_alu_into);
    reveal(CpuView::alu_at);
    let (s1, rs) = s.source(src, opcode);
    lemma_operands_keep_flags(s, size, src, dst, 0, Location::Register(0), 0, opcode);
    if let Some((b, off)) = rs {
        let (s2, rd) = s1.destination(dst, off, opcode);
        lemma_operands_keep_flags(s1, size, src, dst, off, Location::Register(0), 0, opcode);
        if let Some((loc, next)) = rd {
            let (s3, ra) = s2.load(loc, size);
            lemma_operands_keep_flags(s2, size, src, dst, off, loc, 0, opcode);
            if let Some(a) = ra {
                lemma_operands_keep_flags(s3, size, src, dst, off, loc, crate::alu::alu_value(op, size, a, b), opcode);
            }
        }
    }
}


/// The physical address that an access to `a` reaches.
pub open spec fn target(m: MemoryView, a: u32) -> u32 {
    if m.mmu_enabled {
        m.translate(a).unwrap().0
    } else {
        a
    }
}

proof fn lemma_frame_offset(pa: u32, x: u32)
    requires
        pa & 0xFFF == 0,
        x < 0x1000,
    ensures
        (pa | x) & 0xFFF == x,
{
    assert((pa | x) & 0xFFF == x) by (bit_vector)
        requires pa & 0xFFF == 0, x < 0x1000;
}

proof fn lemma_aligned_offsets(a: u32, k: u32)
    requires
        a & 3 == 0,
        k < 4,
    ensures
        wadd(a, k as int) == a + k,
        page_of(wadd(a, k as int)) == page_of(a),
        wadd(a, k as int) & 0xFFF == (a & 0xFFF) + k,
        (a & 0xFFF) + k < 0x1000,
{
    assert(a + k <= 0xFFFF_FFFF) by (bit_vector)
        requires a & 3 == 0, k < 4;
    assert(wadd(a, k as int) == a + k);
    let b = (a + k) as u32;
    assert((b & 0xFFFFF000) == (a & 0xFFFFF000) && (b & 0xFFF) == (a & 0xFFF) + k && (a & 0xFFF) + k < 0x1000) by (bit_vector)
        requires a & 3 == 0, k < 4, b == a + k;
}

/// Cached entries stay through a translation; the translated page is then
/// cached, and translates as before.
proof fn lemma_tlb_after(m: MemoryView, v: u32)
    requires
        m.translate(v) is Some,
    ensures
        forall|k: u32| m.tlb.contains_key(k) ==> #[trigger] m.tlb_after(v).contains_key(k) && m.tlb_after(v)[k] == m.tlb[k],
        m.tlb_after(v).contains_key(page_of(v)),
        (MemoryView { tlb: m.tlb_after(v), ..m }).translate(v) == m.translate(v),
{
}

/// A byte write that succeeds stores the byte at its target, in RAM, and
/// leaves the page of `a` cached when the MMU is on.
proof fn lemma_write8_ok(m: MemoryView, a: u32, b: u8)
    requires
        m.wf(),
        m.write8(a, b).1,
    ensures
        target(m, a) < MEMORY_RAM_SIZE,
        m.mmu_enabled ==> m.translate(a) is Some && m.translate(a).unwrap().1,
        m.write8(a, b).0 == (MemoryView {
            ram: m.ram.update(target(m, a) as int, b),
            tlb: if m.mmu_enabled { m.tlb_after(a) } else { m.tlb },
            ..m
        }),
        m.write8(a, b).0.wf(),
{
    reveal(MemoryView::write8);
    if m.mmu_enabled {
        lemma_tlb_after(m, a);
        reveal(MemoryView::phys_word);
        if !m.tlb.contains_key(page_of(a)) {
            let t = m.walk(a).unwrap();
            let table = m.phys_word(wadd(m.phys_word(wadd(m.paging_directory_address, (a >> 22) * 4)).unwrap() & 0xFFFFF000, ((a >> 12) & 0x3FF) * 4)).unwrap();
            assert((table & 0xFFFFF000) & 0xFFF == 0) by (bit_vector);
        }
    }
}

/// A byte read of an address whose page is cached (or with the MMU off),
/// whose target lies in RAM, finds the RAM byte there and changes nothing.
proof fn lemma_read8_hit(m: MemoryView, a: u32)
    requires
        m.wf(),
        m.mmu_enabled ==> m.tlb.contains_key(page_of(a)),
        target(m, a) < MEMORY_RAM_SIZE,
    ensures
        m.read8(a) == (m, Some(m.ram[target(m, a) as int])),
{
    reveal(MemoryView::read8);
    if m.mmu_enabled {
        assert(m.tlb_after(a) == m.tlb);
        assert(MemoryView { tlb: m.tlb, ..m } == m);
    }
}


proof fn lemma_aligned_half(a: u32)
    requires
        a & 1 == 0,
    ensures
        wadd(a, 1) == a + 1,
        page_of(wadd(a, 1)) == page_of(a),
        wadd(a, 1) & 0xFFF == (a & 0xFFF) + 1,
        (a & 0xFFF) + 1 < 0x1000,
{
    assert(a + 1 <= 0xFFFF_FFFF) by (bit_vector)
        requires a & 1 == 0;
    let b = (a + 1) as u32;
    assert((b & 0xFFFFF000) == (a & 0xFFFFF000) && (b & 0xFFF) == (a & 0xFFF) + 1 && (a & 0xFFF) + 1 < 0x1000) by (bit_vector)
        requires a & 1 == 0, b == a + 1;
}

/// After a successful write at `a`, with the page of `c` the page of `a`:
/// `c` reaches the same frame as before the write, at its own offset.
proof fn lemma_same_page_target(m: MemoryView, a: u32, b: u8, c: u32)
    requires
        m.wf(),
        m.write8(a, b).1,
        page_of(c) == page_of(a),
        m.mmu_enabled ==> m.tlb.contains_key(page_of(a)) || m.translate(a) is Some,
    ensures
        ({
            let m1 = m.write8(a, b).0;
            &&& m1.mmu_enabled == m.mmu_enabled
            &&& m1.mmu_enabled ==> m1.tlb.contains_key(page_of(c))
            &&& m1.mmu_enabled ==> m1.tlb[page_of(c)].physical_address & 0xFFF == 0
            &&& m1.mmu_enabled ==> target(m1, c) == m1.tlb[page_of(c)].physical_address | (c & 0xFFF)
            &&& m1.mmu_enabled ==> target(m1, a) == m1.tlb[page_of(a)].physical_address | (a & 0xFFF)
            &&& target(m1, a) == target(m, a)
        }),
{
    lemma_write8_ok(m, a, b);
    if m.mmu_enabled {
        lemma_tlb_after(m, a);
    }
}

/// A byte write that succeeds where the page is already cached (or the MMU
/// is off) keeps every cached entry.
proof fn lemma_cached_write_keeps_tlb(m: MemoryView, a: u32, b: u8)
    requires
        m.wf(),
        m.write8(a, b).1,
        m.mmu_enabled ==> m.tlb.contains_key(page_of(a)),
    ensures
        m.write8(a, b).0.tlb == m.tlb,
        m.write8(a, b).0.ram == m.ram.update(target(m, a) as int, b),
{
    lemma_write8_ok(m, a, b);
}

/// A half-word written at an even address where the write succeeds reads
/// back unchanged.
pub proof fn lemma_round_trip_16(m: MemoryView, a: u32, h: u16)
    requires
        m.wf(),
        a & 1 == 0,
        m.write16(a, h).1,
    ensures
        m.write16(a, h).0.read16(a).1 == Some(h),
{
    let lo = (h & 0xFF) as u8;
    let hi = (h >> 8) as u8;
    lemma_aligned_half(a);
    let a1 = wadd(a, 1);
    lemma_write8_ok(m, a, lo);
    let m1 = m.write8(a, lo).0;
    lemma_same_page_target(m, a, lo, a1);
    lemma_write8_ok(m1, a1, hi);
    lemma_cached_write_keeps_tlb(m1, a1, hi);
    let m2 = m1.write8(a1, hi).0;
    let t0 = target(m, a);
    let t1 = target(m1, a1);
    if m.mmu_enabled {
        let pa = m1.tlb[page_of(a)].physical_address;
        lemma_frame_offset(pa, a & 0xFFF);
        lemma_frame_offset(pa, a1 & 0xFFF);
    }
    assert(t0 != t1);
    assert(target(m2, a) == t0);
    assert(target(m2, a1) == t1);
    lemma_read8_hit(m2, a);
    lemma_read8_hit(m2, a1);
    assert(le16(lo, hi) == h) by (bit_vector)
        requires lo == (h & 0xFF) as u8, hi == (h >> 8) as u8;
}

/// A byte written where the write succeeds reads back unchanged.
pub proof fn lemma_round_trip_8(m: MemoryView, a: u32, b: u8)
    requires
        m.wf(),
        m.write8(a, b).1,
    ensures
        m.write8(a, b).0.read8(a).1 == Some(b),
{
    lemma_write8_ok(m, a, b);
    let m1 = m.write8(a, b).0;
    if m.mmu_enabled {
        lemma_tlb_after(m, a);
    }
    assert(target(m1, a) == target(m, a));
    lemma_read8_hit(m1, a);
}


/// What a successful aligned word write leaves: four distinct targets in
/// RAM holding the four bytes, lowest first, each reached again by a read.
proof fn lemma_write32_ok(m: MemoryView, a: u32, w: u32)
    requires
        m.wf(),
        a & 3 == 0,
        m.write32(a, w).1,
    ensures
        ({
            let m4 = m.write32(a, w).0;
            &&& m4.wf()
            &&& forall|k: u32| k < 4 ==> #[trigger] m4.read8(wadd(a, k as int)) == (m4, Some(byte_of(w, k)))
        }),
{
    lemma_aligned_offsets(a, 1);
    lemma_aligned_offsets(a, 2);
    lemma_aligned_offsets(a, 3);
    let a1 = wadd(a, 1);
    let a2 = wadd(a, 2);
    let a3 = wadd(a, 3);
    let (b0, b1, b2, b3) = (byte_of(w, 0), byte_of(w, 1), byte_of(w, 2), byte_of(w, 3));
    lemma_write8_ok(m, a, b0);
    let m1 = m.write8(a, b0).0;
    lemma_same_page_target(m, a, b0, a1);
    lemma_same_page_target(m, a, b0, a2);
    lemma_same_page_target(m, a, b0, a3);
    lemma_write8_ok(m1, a1, b1);
    lemma_cached_write_keeps_tlb(m1, a1, b1);
    let m2 = m1.write8(a1, b1).0;
    lemma_write8_ok(m2, a2, b2);
    lemma_cached_write_keeps_tlb(m2, a2, b2);
    let m3 = m2.write8(a2, b2).0;
    lemma_write8_ok(m3, a3, b3);
    lemma_cached_write_keeps_tlb(m3, a3, b3);
    let m4 = m3.write8(a3, b3).0;
    let t0 = target(m, a);
    let t1 = target(m1, a1);
    let t2 = target(m2, a2);
    let t3 = target(m3, a3);
    assert(target(m2, a2) == target(m1, a2));
    assert(target(m3, a3) == target(m1, a3));
    if m.mmu_enabled {
        let pa = m1.tlb[page_of(a)].physical_address;
        lemma_frame_offset(pa, a & 0xFFF);
        lemma_frame_offset(pa, a1 & 0xFFF);
        lemma_frame_offset(pa, a2 & 0xFFF);
        lemma_frame_offset(pa, a3 & 0xFFF);
    }
    assert(t0 != t1 && t0 != t2 && t0 != t3 && t1 != t2 && t1 != t3 && t2 != t3);
    assert(target(m4, a) == t0 && target(m4, a1) == t1 && target(m4, a2) == t2 && target(m4, a3) == t3);
    assert(m4.ram[t0 as int] == b0 && m4.ram[t1 as int] == b1 && m4.ram[t2 as int] == b2 && m4.ram[t3 as int] == b3);
    lemma_read8_hit(m4, a);
    lemma_read8_hit(m4, a1);
    lemma_read8_hit(m4, a2);
    lemma_read8_hit(m4, a3);
    assert(wadd(a, 0) == a);
}

/// A word written at an address that is a multiple of four, where the
/// write succeeds, reads back unchanged.
pub proof fn lemma_round_trip_32(m: MemoryView, a: u32, w: u32)
    requires
        m.wf(),
        a & 3 == 0,
        m.write32(a, w).1,
    ensures
        m.write32(a, w).0.read32(a).1 == Some(w),
{
    lemma_write32_ok(m, a, w);
    let m4 = m.write32(a, w).0;
    assert(m4.read8(wadd(a, 0 as int)) == (m4, Some(byte_of(w, 0))));
    assert(m4.read8(wadd(a, 1 as int)) == (m4, Some(byte_of(w, 1))));
    assert(m4.read8(wadd(a, 2 as int)) == (m4, Some(byte_of(w, 2))));
    assert(m4.read8(wadd(a, 3 as int)) == (m4, Some(byte_of(w, 3))));
    lemma_aligned_offsets(a, 3);
    lemma_aligned_offsets(a, 2);
    assert(wadd(wadd(a, 2), 1) == wadd(a, 3));
    assert(wadd(a, 0) == a);
    lemma_halves(byte_of(w, 0), byte_of(w, 1), byte_of(w, 2), byte_of(w, 3));
    lemma_word_bytes(w);
}

/// A word written at a multiple of four, where the write succeeds, lies in
/// memory lowest byte first: byte `i` of it reads as `(w >> 8i) & 0xFF`.
pub proof fn lemma_little_endian(m: MemoryView, a: u32, w: u32, i: u32)
    requires
        m.wf(),
        a & 3 == 0,
        m.write32(a, w).1,
        i < 4,
    ensures
        m.write32(a, w).0.read8(wadd(a, i as int)).1 == Some(((w >> (8 * i)) & 0xFF) as u8),
{
    lemma_write32_ok(m, a, w);
}

} // verus!
