use fox32::cpu::{Exception, FatalError};
use fox32::memory::{Memory, MemoryPage, MEMORY_RAM_SIZE, MEMORY_ROM_SIZE, MEMORY_ROM_START};

/// Directory at 0x1000; the first 4 MiB through the table at 0x2000.
fn paged() -> Memory {
    let mut m = Memory::new(&[]);
    assert!(m.write_32(0x1000, 0x2001));
    // virtual page 0x5000 -> frame 0x9000, writable; 0x6000 -> 0x9000, read only
    assert!(m.write_32(0x2000 + 5 * 4, 0x9003));
    assert!(m.write_32(0x2000 + 6 * 4, 0x9001));
    m.flush_tlb(Some(0x1000));
    m.set_mmu_enabled(true);
    m
}

#[test]
fn write_then_read_each_size() {
    let mut m = Memory::new(&[]);
    assert!(m.write_8(0x100, 0xAB));
    assert_eq!(m.read_8(0x100), Some(0xAB));
    assert!(m.write_16(0x200, 0xBEEF));
    assert_eq!(m.read_16(0x200), Some(0xBEEF));
    assert!(m.write_32(0x300, 0xDEAD_BEEF));
    assert_eq!(m.read_32(0x300), Some(0xDEAD_BEEF));
}

#[test]
fn words_are_little_endian() {
    let mut m = Memory::new(&[]);
    assert!(m.write_32(0x40, 0x1122_3344));
    assert_eq!(m.read_8(0x40), Some(0x44));
    assert_eq!(m.read_8(0x41), Some(0x33));
    assert_eq!(m.read_8(0x42), Some(0x22));
    assert_eq!(m.read_8(0x43), Some(0x11));
    assert_eq!(m.read_16(0x42), Some(0x1122));
}

#[test]
fn rom_holds_image() {
    let mut m = Memory::new(&[1, 2, 3]);
    assert_eq!(m.read_8(MEMORY_ROM_START + 2), Some(3));
    assert_eq!(m.read_8(MEMORY_ROM_START + 3), Some(0));
    assert_eq!(m.rom().len(), MEMORY_ROM_SIZE);
    assert_eq!(m.ram().len(), MEMORY_RAM_SIZE);
    assert!(!m.write_8(MEMORY_ROM_START, 9));
    assert_eq!(m.fatal(), Some(FatalError::RomWrite(MEMORY_ROM_START)));
}

#[test]
fn unmapped_access_without_mmu_is_fatal() {
    let mut m = Memory::new(&[]);
    assert_eq!(m.read_8(0x8000_0000), None);
    assert_eq!(m.fatal(), Some(FatalError::Unmapped(0x8000_0000)));
    assert_eq!(m.take_exception(), None);
}

#[test]
fn mmu_translates_through_tables() {
    let mut m = paged();
    assert_eq!(m.virtual_to_physical(0x5123), Some((0x9123, true)));
    assert_eq!(m.tlb().get(&0x5000), Some(&MemoryPage { physical_address: 0x9000, present: true, rw: true }));
    assert!(m.write_8(0x5010, 0x77));
    m.set_mmu_enabled(false);
    assert_eq!(m.read_8(0x9010), Some(0x77));
    m.set_mmu_enabled(true);
    assert_eq!(m.read_8(0x6010), Some(0x77));
    assert_eq!(m.read_opt_32(0x5010), Some(0x77));
}

#[test]
fn read_only_page_faults_on_write() {
    let mut m = paged();
    assert!(!m.write_8(0x6000, 1));
    assert_eq!(m.take_exception(), Some(Exception::PageFaultWrite(0x6000)));
    assert_eq!(m.take_exception(), None);
}

#[test]
fn missing_page_faults_on_read() {
    let mut m = paged();
    assert_eq!(m.read_8(0x1000_0000), None);
    assert_eq!(m.take_exception(), Some(Exception::PageFaultRead(0x1000_0000)));
    assert_eq!(m.read_opt_8(0x7000), None);
    assert_eq!(m.take_exception(), None);
}

#[test]
fn tlb_is_stale_until_flushed() {
    let mut m = paged();
    assert_eq!(m.virtual_to_physical(0x5000), Some((0x9000, true)));
    m.set_mmu_enabled(false);
    assert!(m.write_32(0x2000 + 5 * 4, 0xA003));
    m.set_mmu_enabled(true);
    assert_eq!(m.virtual_to_physical(0x5000), Some((0x9000, true)));
    m.flush_page(0x5FFF);
    assert_eq!(m.virtual_to_physical(0x5000), Some((0xA000, true)));
    m.flush_tlb(None);
    assert!(m.tlb().is_empty());
    assert_eq!(m.paging_directory_address(), 0x1000);
}

#[test]
fn walk_reports_directory_presence() {
    let mut m = paged();
    assert!(m.insert_tlb_entry_from_tables(0, 5));
    assert!(m.insert_tlb_entry_from_tables(0, 7));
    assert!(m.tlb().get(&0x7000).is_none());
    assert!(!m.insert_tlb_entry_from_tables(1, 0));
}

#[test]
fn straddling_write_keeps_successful_bytes() {
    let mut m = paged();
    // 0x5FFE..0x6001: two bytes in the writable page, two in the read-only one
    assert!(!m.write_32(0x5FFE, 0x4433_2211));
    m.set_mmu_enabled(false);
    assert_eq!(m.read_8(0x9FFE), Some(0x11));
    assert_eq!(m.read_8(0x9FFF), Some(0x22));
    assert_eq!(m.read_8(0x9000), Some(0));
}

#[test]
fn dma_copies_past_mmu() {
    let mut m = Memory::new(&[]);
    m.dma_write(0x10, &[1, 2, 3]);
    assert_eq!(m.dma_read(0x10, 3), vec![1, 2, 3]);
    assert_eq!(m.read_opt_16(0x11), Some(0x0302));
}

#[test]
fn identity_mapping_agrees_with_mmu_off() {
    let mut m = Memory::new(&[]);
    assert!(m.write_32(0x1000, 0x2001));
    assert!(m.write_32(0x2000 + 8 * 4, 0x8003));
    assert!(m.write_32(0x8040, 0xCAFE_F00D));
    m.flush_tlb(Some(0x1000));
    m.set_mmu_enabled(true);
    assert_eq!(m.read_32(0x8040), Some(0xCAFE_F00D));
    assert!(m.write_8(0x8041, 0x11));
    m.set_mmu_enabled(false);
    assert_eq!(m.read_32(0x8040), Some(0xCAFE_110D));
}
