use vstd::prelude::*;
use std::collections::HashMap;
use crate::cpu::{Exception, FatalError};

verus! {

broadcast use vstd::std_specs::hash::group_hash_axioms;

pub const MEMORY_RAM_SIZE: usize = 0x04000000;
pub const MEMORY_ROM_SIZE: usize = 0x00080000;

pub const MEMORY_RAM_START: u32 = 0x00000000;
pub const MEMORY_ROM_START: u32 = 0xF0000000;

/// One cached translation: the physical frame of a virtual page and its bits.
#[derive(Clone, Copy, Debug, PartialEq, Eq, Structural)]
pub struct MemoryPage {
    pub physical_address: u32,
    pub present: bool,
    pub rw: bool,
}

/// `a + k`, wrapping at 32 bits.
pub open spec fn wadd(a: u32, k: int) -> u32 {
    ((a as int + k) % 0x1_0000_0000) as u32
}

/// The page that holds virtual address `v`.
pub open spec fn page_of(v: u32) -> u32 {
    v & 0xFFFFF000
}

/// Byte `i` (0 the lowest) of `v`.
pub open spec fn byte_of(v: u32, i: u32) -> u8 {
    ((v >> (8 * i)) & 0xFF) as u8
}

pub open spec fn le16(b0: u8, b1: u8) -> u16 {
    (b0 as u16) | ((b1 as u16) << 8)
}

pub open spec fn le32(b0: u8, b1: u8, b2: u8, b3: u8) -> u32 {
    (b0 as u32) | ((b1 as u32) << 8) | ((b2 as u32) << 16) | ((b3 as u32) << 24)
}

/// The state of the memory as the contracts speak of it.
pub struct MemoryView {
    pub ram: Seq<u8>,
    pub rom: Seq<u8>,
    pub mmu_enabled: bool,
    pub tlb: Map<u32, MemoryPage>,
    pub paging_directory_address: u32,
    /// The fault that the last failing access raised, waiting to be delivered.
    pub exception: Option<Exception>,
    /// Set once an access ended the machine.
    pub fatal: Option<FatalError>,
}

impl MemoryView {
    pub open spec fn wf(self) -> bool {
        &&& self.ram.len() == MEMORY_RAM_SIZE
        &&& self.rom.len() == MEMORY_ROM_SIZE
        &&& forall|k: u32| #[trigger] self.tlb.contains_key(k) ==> {
            &&& self.tlb[k].present
            &&& self.tlb[k].physical_address & 0xFFF == 0
        }
    }

    pub open spec fn in_rom(self, p: u32) -> bool {
        MEMORY_ROM_START <= p && (p - MEMORY_ROM_START) < self.rom.len()
    }

    /// The byte at physical address `p`, if RAM or ROM lies there.
    pub open spec fn phys_byte(self, p: u32) -> Option<u8> {
        if self.in_rom(p) {
            Some(self.rom[p - MEMORY_ROM_START])
        } else if p < self.ram.len() {
            Some(self.ram[p as int])
        } else {
            None
        }
    }

    /// The little-endian word at physical address `p`.
    #[verifier::opaque]
    pub open spec fn phys_word(self, p: u32) -> Option<u32> {
        match (self.phys_byte(p), self.phys_byte(wadd(p, 1)), self.phys_byte(wadd(p, 2)), self.phys_byte(wadd(p, 3))) {
            (Some(b0), Some(b1), Some(b2), Some(b3)) => Some(le32(b0, b1, b2, b3)),
            _ => None,
        }
    }

    /// The two-level page-table walk for virtual address `v`.
    pub open spec fn walk(self, v: u32) -> Option<MemoryPage> {
        match self.phys_word(wadd(self.paging_directory_address, (v >> 22) * 4)) {
            None => None,
            Some(dir) => if dir & 1 == 0 {
                None
            } else {
                match self.phys_word(wadd(dir & 0xFFFFF000, ((v >> 12) & 0x3FF) * 4)) {
                    None => None,
                    Some(table) => if table & 1 == 0 {
                        None
                    } else {
                        Some(MemoryPage { physical_address: table & 0xFFFFF000, present: true, rw: table & 2 != 0 })
                    },
                }
            },
        }
    }

    /// Where virtual address `v` leads with the MMU on, and whether it may be
    /// written: the cached entry if there is one, else the walk.
    pub open spec fn translate(self, v: u32) -> Option<(u32, bool)> {
        if self.tlb.contains_key(page_of(v)) {
            let e = self.tlb[page_of(v)];
            if e.present {
                Some((e.physical_address | (v & 0xFFF), e.rw))
            } else {
                None
            }
        } else {
            match self.walk(v) {
                Some(e) => Some((e.physical_address | (v & 0xFFF), e.rw)),
                None => None,
            }
        }
    }

    /// The cache after a translation of `v`: a missing entry is filled from
    /// the walk when the walk finds the page.
    pub open spec fn tlb_after(self, v: u32) -> Map<u32, MemoryPage> {
        if !self.tlb.contains_key(page_of(v)) && self.walk(v) is Some {
            self.tlb.insert(page_of(v), self.walk(v).unwrap())
        } else {
            self.tlb
        }
    }

    /// The state after an access to `v` has translated it (if the MMU is on).
    pub open spec fn touch(self, v: u32) -> MemoryView {
        if self.mmu_enabled {
            MemoryView { tlb: self.tlb_after(v), ..self }
        } else {
            self
        }
    }

    /// The byte that a read of `v` finds, without raising anything.
    pub open spec fn probe(self, v: u32) -> Option<u8> {
        if self.mmu_enabled {
            match self.translate(v) {
                Some((p, _)) => self.phys_byte(p),
                None => None,
            }
        } else {
            self.phys_byte(v)
        }
    }

    pub open spec fn fault_read(self, v: u32) -> MemoryView {
        if self.mmu_enabled {
            MemoryView { exception: Some(Exception::PageFaultRead(v)), ..self }
        } else {
            MemoryView { fatal: Some(FatalError::Unmapped(v)), ..self }
        }
    }

    pub open spec fn fault_write(self, v: u32) -> MemoryView {
        if self.mmu_enabled {
            MemoryView { exception: Some(Exception::PageFaultWrite(v)), ..self }
        } else {
            MemoryView { fatal: Some(FatalError::Unmapped(v)), ..self }
        }
    }

    /// A byte read of virtual address `v`: the new state and the byte.
    #[verifier::opaque]
    pub open spec fn read8(self, v: u32) -> (MemoryView, Option<u8>) {
        match self.probe(v) {
            Some(b) => (self.touch(v), Some(b)),
            None => (self.touch(v).fault_read(v), None),
        }
    }

    pub open spec fn read16(self, v: u32) -> (MemoryView, Option<u16>) {
        let (s0, r0) = self.read8(v);
        match r0 {
            None => (s0, None),
            Some(b0) => {
                let (s1, r1) = s0.read8(wadd(v, 1));
                match r1 {
                    None => (s1, None),
                    Some(b1) => (s1, Some(le16(b0, b1))),
                }
            },
        }
    }

    pub open spec fn read32(self, v: u32) -> (MemoryView, Option<u32>) {
        let (s0, r0) = self.read16(v);
        match r0 {
            None => (s0, None),
            Some(h0) => {
                let (s1, r1) = s0.read16(wadd(v, 2));
                match r1 {
                    None => (s1, None),
                    Some(h1) => (s1, Some((h0 as u32) | ((h1 as u32) << 16))),
                }
            },
        }
    }

    /// A byte read of `v` that raises nothing when it fails.
    #[verifier::opaque]
    pub open spec fn peek8(self, v: u32) -> (MemoryView, Option<u8>) {
        (self.touch(v), self.probe(v))
    }

    pub open spec fn peek16(self, v: u32) -> (MemoryView, Option<u16>) {
        let (s0, r0) = self.peek8(v);
        match r0 {
            None => (s0, None),
            Some(b0) => {
                let (s1, r1) = s0.peek8(wadd(v, 1));
                match r1 {
                    None => (s1, None),
                    Some(b1) => (s1, Some(le16(b0, b1))),
                }
            },
        }
    }

    pub open spec fn peek32(self, v: u32) -> (MemoryView, Option<u32>) {
        let (s0, r0) = self.peek16(v);
        match r0 {
            None => (s0, None),
            Some(h0) => {
                let (s1, r1) = s0.peek16(wadd(v, 2));
                match r1 {
                    None => (s1, None),
                    Some(h1) => (s1, Some((h0 as u32) | ((h1 as u32) << 16))),
                }
            },
        }
    }

    /// A byte write of `b` to virtual address `v`: the new state and whether
    /// the byte was stored.
    #[verifier::opaque]
    pub open spec fn write8(self, v: u32, b: u8) -> (MemoryView, bool) {
        let s = self.touch(v);
        let target = if self.mmu_enabled { self.translate(v) } else { Some((v, true)) };
        match target {
            None => (s.fault_write(v), false),
            Some((p, rw)) => if !rw {
                (s.fault_write(v), false)
            } else if s.in_rom(p) {
                (MemoryView { fatal: Some(FatalError::RomWrite(p)), ..s }, false)
            } else if p < s.ram.len() {
                (MemoryView { ram: s.ram.update(p as int, b), ..s }, true)
            } else {
                (s.fault_write(v), false)
            },
        }
    }

    /// Every byte is attempted, each on the state the previous one left.
    pub open spec fn write16(self, v: u32, h: u16) -> (MemoryView, bool) {
        let (s0, ok0) = self.write8(v, (h & 0xFF) as u8);
        let (s1, ok1) = s0.write8(wadd(v, 1), (h >> 8) as u8);
        (s1, ok0 && ok1)
    }

    pub open spec fn write32(self, v: u32, w: u32) -> (MemoryView, bool) {
        let (s0, ok0) = self.write8(v, byte_of(w, 0));
        let (s1, ok1) = s0.write8(wadd(v, 1), byte_of(w, 1));
        let (s2, ok2) = s1.write8(wadd(v, 2), byte_of(w, 2));
        let (s3, ok3) = s2.write8(wadd(v, 3), byte_of(w, 3));
        (s3, ok0 && ok1 && ok2 && ok3)
    }
}


proof fn lemma_page_indices(d: u32, t: u32)
    requires
        d < 1024,
        t < 1024,
    ensures
        ((d << 22) | (t << 12)) >> 22 == d,
        (((d << 22) | (t << 12)) >> 12) & 0x3FF == t,
        page_of((d << 22) | (t << 12)) == (d << 22) | (t << 12),
        d * 4 < 4096,
        t * 4 < 4096,
{
    assert(((d << 22) | (t << 12)) >> 22 == d) by (bit_vector)
        requires d < 1024, t < 1024;
    assert((((d << 22) | (t << 12)) >> 12) & 0x3FF == t) by (bit_vector)
        requires d < 1024, t < 1024;
    assert(((d << 22) | (t << 12)) & 0xFFFFF000 == (d << 22) | (t << 12)) by (bit_vector)
        requires d < 1024, t < 1024;
}

proof fn lemma_split_address(v: u32)
    ensures
        v >> 22 < 1024,
        (v >> 12) & 0x3FF < 1024,
        ((v >> 22) << 22) | (((v >> 12) & 0x3FF) << 12) == page_of(v),
{
    assert(v >> 22 < 1024) by (bit_vector);
    assert((v >> 12) & 0x3FF < 1024) by (bit_vector);
    assert(((v >> 22) << 22) | (((v >> 12) & 0x3FF) << 12) == v & 0xFFFFF000) by (bit_vector);
}

proof fn lemma_frame_aligned(t: u32)
    ensures
        (t & 0xFFFFF000) & 0xFFF == 0,
{
    assert((t & 0xFFFFF000) & 0xFFF == 0) by (bit_vector);
}

/// RAM, ROM, the MMU switch and its translation cache.
pub struct Memory {
    ram: Vec<u8>,
    rom: Vec<u8>,
    mmu_enabled: bool,
    tlb: HashMap<u32, MemoryPage>,
    paging_directory_address: u32,
    exception: Option<Exception>,
    fatal: Option<FatalError>,
}

impl View for Memory {
    type V = MemoryView;

    closed spec fn view(&self) -> MemoryView {
        MemoryView {
            ram: self.ram@,
            rom: self.rom@,
            mmu_enabled: self.mmu_enabled,
            tlb: self.tlb@,
            paging_directory_address: self.paging_directory_address,
            exception: self.exception,
            fatal: self.fatal,
        }
    }
}

impl Memory {
    /// Zeroed RAM, and a ROM that holds `rom` from its start (what does not
    /// fit is left out); MMU off, cache empty.
    pub fn new(rom: &[u8]) -> (r: Memory)
        ensures
            r@.wf(),
            forall|i: int| 0 <= i < MEMORY_RAM_SIZE ==> r@.ram[i] == 0,
            forall|i: int| 0 <= i < MEMORY_ROM_SIZE ==> r@.rom[i] == (if i < rom@.len() { rom@[i] } else { 0u8 }),
            !r@.mmu_enabled,
            r@.tlb == Map::<u32, MemoryPage>::empty(),
            r@.paging_directory_address == 0,
            r@.exception is None,
            r@.fatal is None,
    {
        let ram: Vec<u8> = vec![0u8; MEMORY_RAM_SIZE];
        let mut rom_bytes: Vec<u8> = vec![0u8; MEMORY_ROM_SIZE];
        let n: usize = if rom.len() < MEMORY_ROM_SIZE { rom.len() } else { MEMORY_ROM_SIZE };
        let mut i: usize = 0;
        while i < n
            invariant
                n <= rom@.len(),
                n <= MEMORY_ROM_SIZE,
                i <= n,
                rom_bytes@.len() == MEMORY_ROM_SIZE,
                forall|j: int| 0 <= j < MEMORY_ROM_SIZE ==> rom_bytes@[j] == (if j < i { rom@[j] } else { 0u8 }),
            decreases n - i,
        {
            rom_bytes.set(i, rom[i]);
            i = i + 1;
        }
        assert forall|j: int| 0 <= j < MEMORY_ROM_SIZE implies rom_bytes@[j] == (if j < rom@.len() { rom@[j] } else { 0u8 }) by {
            if j >= n && j < rom@.len() {
                assert(n == MEMORY_ROM_SIZE);
            }
        }
        Memory {
            ram,
            rom: rom_bytes,
            mmu_enabled: false,
            tlb: HashMap::new(),
            paging_directory_address: 0,
            exception: None,
            fatal: None,
        }
    }

    pub fn ram(&self) -> (r: &[u8])
        ensures
            r@ == self@.ram,
    {
        self.ram.as_slice()
    }

    pub fn rom(&self) -> (r: &[u8])
        ensures
            r@ == self@.rom,
    {
        self.rom.as_slice()
    }

    pub fn mmu_enabled(&self) -> (r: bool)
        ensures
            r == self@.mmu_enabled,
    {
        self.mmu_enabled
    }

    pub fn set_mmu_enabled(&mut self, enabled: bool)
        ensures
            final(self)@ == (MemoryView { mmu_enabled: enabled, ..old(self)@ }),
    {
        self.mmu_enabled = enabled;
    }

    pub fn tlb(&self) -> (r: &HashMap<u32, MemoryPage>)
        ensures
            r@ == self@.tlb,
    {
        &self.tlb
    }

    pub fn paging_directory_address(&self) -> (r: u32)
        ensures
            r == self@.paging_directory_address,
    {
        self.paging_directory_address
    }

    /// Hands out the fault that the last failing access raised, and clears it.
    pub fn take_exception(&mut self) -> (r: Option<Exception>)
        ensures
            r == old(self)@.exception,
            final(self)@ == (MemoryView { exception: None, ..old(self)@ }),
    {
        let r = self.exception;
        self.exception = None;
        r
    }

    /// The error that ended the machine, if one did.
    pub fn fatal(&self) -> (r: Option<FatalError>)
        ensures
            r == self@.fatal,
    {
        self.fatal
    }

    /// Sets the directory base when one is given, then empties the cache.
    pub fn flush_tlb(&mut self, paging_directory_address: Option<u32>)
        requires
            old(self)@.wf(),
        ensures
            final(self)@.wf(),
            final(self)@ == (MemoryView {
                tlb: Map::empty(),
                paging_directory_address: match paging_directory_address {
                    Some(a) => a,
                    None => old(self)@.paging_directory_address,
                },
                ..old(self)@
            }),
    {
        if let Some(address) = paging_directory_address {
            self.paging_directory_address = address;
        }
        self.tlb.clear();
    }

    /// Drops the cached entry of the page that holds `virtual_address`.
    pub fn flush_page(&mut self, virtual_address: u32)
        requires
            old(self)@.wf(),
        ensures
            final(self)@.wf(),
            final(self)@ == (MemoryView { tlb: old(self)@.tlb.remove(page_of(virtual_address)), ..old(self)@ }),
    {
        let virtual_page = virtual_address & 0xFFFFF000;
        self.tlb.remove(&virtual_page);
    }

    fn read_physical(&self, p: u32) -> (r: Option<u8>)
        requires
            self@.wf(),
        ensures
            r == self@.phys_byte(p),
    {
        if p >= MEMORY_ROM_START && ((p - MEMORY_ROM_START) as usize) < self.rom.len() {
            Some(self.rom[(p - MEMORY_ROM_START) as usize])
        } else if (p as usize) < self.ram.len() {
            Some(self.ram[p as usize])
        } else {
            None
        }
    }

    fn read_physical_32(&self, p: u32) -> (r: Option<u32>)
        requires
            self@.wf(),
        ensures
            r == self@.phys_word(p),
    {
        reveal(MemoryView::phys_word);
        let b0 = self.read_physical(p);
        let b1 = self.read_physical(p.wrapping_add(1));
        let b2 = self.read_physical(p.wrapping_add(2));
        let b3 = self.read_physical(p.wrapping_add(3));
        match (b0, b1, b2, b3) {
            (Some(b0), Some(b1), Some(b2), Some(b3)) => Some(
                (b0 as u32) | ((b1 as u32) << 8) | ((b2 as u32) << 16) | ((b3 as u32) << 24),
            ),
            _ => None,
        }
    }

    /// Walks the tables for the page (`page_directory_index`,
    /// `page_table_index`) and caches what it finds, unless that page is
    /// cached already. Returns whether the directory entry is present.
    pub fn insert_tlb_entry_from_tables(&mut self, page_directory_index: u32, page_table_index: u32) -> (r: bool)
        requires
            old(self)@.wf(),
            page_directory_index < 1024,
            page_table_index < 1024,
        ensures
            final(self)@.wf(),
            ({
                let v = (page_directory_index << 22) | (page_table_index << 12);
                let d = old(self)@.phys_word(wadd(old(self)@.paging_directory_address, page_directory_index * 4));
                &&& r == (d is Some && d.unwrap() & 1 != 0)
                &&& final(self)@ == (MemoryView { tlb: old(self)@.tlb_after(v), ..old(self)@ })
            }),
    {
        let ghost m = self@;
        let v: u32 = (page_directory_index << 22) | (page_table_index << 12);
        proof {
            lemma_page_indices(page_directory_index, page_table_index);
        }
        let directory = self.read_physical_32(self.paging_directory_address.wrapping_add(page_directory_index * 4));
        assert(directory == m.phys_word(wadd(m.paging_directory_address, (v >> 22) * 4)));
        match directory {
            Some(directory) => {
                let dir_present = directory & 0b1 != 0;
                let dir_address = directory & 0xFFFFF000;
                if dir_present {
                    let table = self.read_physical_32(dir_address.wrapping_add(page_table_index * 4));
                    assert(table == m.phys_word(wadd(directory & 0xFFFFF000, ((v >> 12) & 0x3FF) * 4)));
                    match table {
                        Some(table) => {
                            let table_present = table & 0b01 != 0;
                            let table_rw = table & 0b10 != 0;
                            let table_address = table & 0xFFFFF000;
                            if table_present {
                                let tlb_entry = MemoryPage {
                                    physical_address: table_address,
                                    present: table_present,
                                    rw: table_rw,
                                };
                                assert(m.walk(v) == Some(tlb_entry));
                                if !self.tlb.contains_key(&v) {
                                    proof {
                                        lemma_frame_aligned(table);
                                    }
                                    self.tlb.insert(v, tlb_entry);
                                }
                            } else {
                                assert(m.walk(v) is None);
                            }
                        },
                        None => {
                            assert(m.walk(v) is None);
                        },
                    }
                } else {
                    assert(m.walk(v) is None);
                }
                dir_present
            },
            None => {
                assert(m.walk(v) is None);
                false
            },
        }
    }

    /// Where `virtual_address` leads with the MMU on, and whether it may be
    /// written; fills the cache on a miss.
    pub fn virtual_to_physical(&mut self, virtual_address: u32) -> (r: Option<(u32, bool)>)
        requires
            old(self)@.wf(),
        ensures
            final(self)@.wf(),
            r == old(self)@.translate(virtual_address),
            final(self)@ == (MemoryView { tlb: old(self)@.tlb_after(virtual_address), ..old(self)@ }),
    {
        let virtual_page = virtual_address & 0xFFFFF000;
        let offset = virtual_address & 0x00000FFF;
        match self.tlb.get(&virtual_page) {
            Some(page) => {
                if page.present {
                    Some((page.physical_address | offset, page.rw))
                } else {
                    None
                }
            },
            None => {
                let page_directory_index = virtual_address >> 22;
                let page_table_index = (virtual_address >> 12) & 0x03FF;
                proof {
                    lemma_split_address(virtual_address);
                    lemma_page_indices(page_directory_index, page_table_index);
                    assert(old(self)@.walk(virtual_address) == old(self)@.walk(
                        (page_directory_index << 22) | (page_table_index << 12),
                    ));
                }
                let dir_present = self.insert_tlb_entry_from_tables(page_directory_index, page_table_index);
                if !dir_present {
                    return None;
                }
                match self.tlb.get(&virtual_page) {
                    Some(page) => {
                        if page.present {
                            Some((page.physical_address | offset, page.rw))
                        } else {
                            None
                        }
                    },
                    None => None,
                }
            },
        }
    }

    /// Reads the byte at `address`; a failure raises nothing.
    pub fn read_opt_8(&mut self, address: u32) -> (r: Option<u8>)
        requires
            old(self)@.wf(),
        ensures
            final(self)@.wf(),
            (final(self)@, r) == old(self)@.peek8(address),
    {
        reveal(MemoryView::peek8);
        if self.mmu_enabled {
            match self.virtual_to_physical(address) {
                Some((physical, _)) => self.read_physical(physical),
                None => None,
            }
        } else {
            self.read_physical(address)
        }
    }

    pub fn read_opt_16(&mut self, address: u32) -> (r: Option<u16>)
        requires
            old(self)@.wf(),
        ensures
            final(self)@.wf(),
            (final(self)@, r) == old(self)@.peek16(address),
    {
        let b0 = self.read_opt_8(address)?;
        let b1 = self.read_opt_8(address.wrapping_add(1))?;
        Some((b0 as u16) | ((b1 as u16) << 8))
    }

    pub fn read_opt_32(&mut self, address: u32) -> (r: Option<u32>)
        requires
            old(self)@.wf(),
        ensures
            final(self)@.wf(),
            (final(self)@, r) == old(self)@.peek32(address),
    {
        let h0 = self.read_opt_16(address)?;
        let h1 = self.read_opt_16(address.wrapping_add(2))?;
        Some((h0 as u32) | ((h1 as u32) << 16))
    }

    /// Reads the byte at `address`; a failure raises a read page fault (MMU
    /// on) or ends the machine (MMU off).
    pub fn read_8(&mut self, address: u32) -> (r: Option<u8>)
        requires
            old(self)@.wf(),
        ensures
            final(self)@.wf(),
            (final(self)@, r) == old(self)@.read8(address),
    {
        reveal(MemoryView::read8);
        reveal(MemoryView::peek8);
        let value = self.read_opt_8(address);
        if value.is_none() {
            if self.mmu_enabled {
                self.exception = Some(Exception::PageFaultRead(address));
            } else {
                self.fatal = Some(FatalError::Unmapped(address));
            }
        }
        value
    }

    pub fn read_16(&mut self, address: u32) -> (r: Option<u16>)
        requires
            old(self)@.wf(),
        ensures
            final(self)@.wf(),
            (final(self)@, r) == old(self)@.read16(address),
    {
        let b0 = self.read_8(address)?;
        let b1 = self.read_8(address.wrapping_add(1))?;
        Some((b0 as u16) | ((b1 as u16) << 8))
    }

    pub fn read_32(&mut self, address: u32) -> (r: Option<u32>)
        requires
            old(self)@.wf(),
        ensures
            final(self)@.wf(),
            (final(self)@, r) == old(self)@.read32(address),
    {
        let h0 = self.read_16(address)?;
        let h1 = self.read_16(address.wrapping_add(2))?;
        Some((h0 as u32) | ((h1 as u32) << 16))
    }

    /// Writes `byte` to `address`. Returns whether it was stored; a failure
    /// raises a write page fault, or ends the machine on a write to ROM or,
    /// with the MMU off, to no memory at all.
    pub fn write_8(&mut self, address: u32, byte: u8) -> (r: bool)
        requires
            old(self)@.wf(),
        ensures
            final(self)@.wf(),
            (final(self)@, r) == old(self)@.write8(address, byte),
    {
        reveal(MemoryView::write8);
        let mut physical = address;
        let mut writable = true;
        if self.mmu_enabled {
            match self.virtual_to_physical(address) {
                Some((p, rw)) => {
                    physical = p;
                    writable = rw;
                },
                None => {
                    writable = false;
                },
            }
        }
        let ghost mid = self@;
        assert(mid.wf());
        if !writable {
            self.exception = Some(Exception::PageFaultWrite(address));
            assert(self@.tlb == mid.tlb);
            return false;
        }
        if physical >= MEMORY_ROM_START && ((physical - MEMORY_ROM_START) as usize) < self.rom.len() {
            self.fatal = Some(FatalError::RomWrite(physical));
            assert(self@.tlb == mid.tlb);
            false
        } else if (physical as usize) < self.ram.len() {
            self.ram.set(physical as usize, byte);
            assert(self@.tlb == mid.tlb);
            true
        } else {
            if self.mmu_enabled {
                self.exception = Some(Exception::PageFaultWrite(address));
            } else {
                self.fatal = Some(FatalError::Unmapped(address));
            }
            false
        }
    }

    /// Writes both bytes, low first; true when both were stored.
    pub fn write_16(&mut self, address: u32, half: u16) -> (r: bool)
        requires
            old(self)@.wf(),
        ensures
            final(self)@.wf(),
            (final(self)@, r) == old(self)@.write16(address, half),
    {
        let ok0 = self.write_8(address, (half & 0x00FF) as u8);
        let ok1 = self.write_8(address.wrapping_add(1), (half >> 8) as u8);
        ok0 && ok1
    }

    /// Writes all four bytes, lowest first; true when all were stored.
    pub fn write_32(&mut self, address: u32, word: u32) -> (r: bool)
        requires
            old(self)@.wf(),
        ensures
            final(self)@.wf(),
            (final(self)@, r) == old(self)@.write32(address, word),
    {
        let ok0 = self.write_8(address, (word & 0xFF) as u8);
        let ok1 = self.write_8(address.wrapping_add(1), ((word >> 8) & 0xFF) as u8);
        let ok2 = self.write_8(address.wrapping_add(2), ((word >> 16) & 0xFF) as u8);
        let ok3 = self.write_8(address.wrapping_add(3), ((word >> 24) & 0xFF) as u8);
        proof {
            assert(byte_of(word, 0) == (word & 0xFF) as u8) by (bit_vector);
        }
        ok0 && ok1 && ok2 && ok3
    }

    /// Copies `data` into RAM at physical offset `start`, past the MMU.
    pub fn dma_write(&mut self, start: usize, data: &[u8])
        requires
            old(self)@.wf(),
            start + data@.len() <= MEMORY_RAM_SIZE,
        ensures
            final(self)@.wf(),
            final(self)@ == (MemoryView {
                ram: old(self)@.ram.subrange(0, start as int) + data@ + old(self)@.ram.subrange(
                    start + data@.len(),
                    MEMORY_RAM_SIZE as int,
                ),
                ..old(self)@
            }),
    {
        let ghost old_ram = self.ram@;
        let ghost before = self@;
        let mut i: usize = 0;
        while i < data.len()
            invariant
                before.wf(),
                self@ == (MemoryView { ram: self.ram@, ..before }),
                i <= data@.len(),
                start + data@.len() <= MEMORY_RAM_SIZE,
                self.ram@.len() == MEMORY_RAM_SIZE,
                old_ram.len() == MEMORY_RAM_SIZE,
                forall|j: int| 0 <= j < MEMORY_RAM_SIZE ==> #[trigger] self.ram@[j] == if start <= j < start + i {
                    data@[j - start]
                } else {
                    old_ram[j]
                },
            decreases data@.len() - i,
        {
            self.ram.set(start + i, data[i]);
            i = i + 1;
        }
        assert(self.ram@ =~= old_ram.subrange(0, start as int) + data@ + old_ram.subrange(
            start + data@.len(),
            MEMORY_RAM_SIZE as int,
        ));
    }

    /// The `len` bytes of RAM at physical offset `start`, past the MMU.
    pub fn dma_read(&self, start: usize, len: usize) -> (r: Vec<u8>)
        requires
            self@.wf(),
            start + len <= MEMORY_RAM_SIZE,
        ensures
            r@ == self@.ram.subrange(start as int, start + len),
    {
        let mut out: Vec<u8> = Vec::new();
        let mut i: usize = 0;
        while i < len
            invariant
                i <= len,
                start + len <= MEMORY_RAM_SIZE,
                self.ram@.len() == MEMORY_RAM_SIZE,
                out@ =~= self.ram@.subrange(start as int, start + i),
            decreases len - i,
        {
            out.push(self.ram[start + i]);
            i = i + 1;
        }
        out
    }
}

} // verus!
