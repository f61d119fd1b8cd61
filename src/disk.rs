use vstd::prelude::*;
use crate::memory::{Memory, MemoryView, MEMORY_RAM_SIZE};

verus! {

pub const SECTOR_SIZE: usize = 512;
pub const DISK_COUNT: usize = 4;

/// A mounted disk image: its size in bytes and the sector last sought.
#[derive(Clone, Copy, Debug, PartialEq, Eq, Structural)]
pub struct Disk {
    pub size: u64,
    pub current_sector: u32,
}

impl Disk {
    pub fn new(size: u64) -> (r: Disk)
        ensures
            r == (Disk { size, current_sector: 0 }),
    {
        Disk { size, current_sector: 0 }
    }
}

/// Transfer work that the guest asked for and the host carries out on the
/// image files.
#[derive(Clone, Copy, Debug, PartialEq, Eq, Structural)]
pub enum DiskRequest {
    /// Pick a file and mount it in this slot.
    Insert(u8),
    /// Copy this sector of this disk into the sector buffer in RAM.
    Read(u8, u32),
    /// Copy the sector buffer in RAM to this sector of this disk.
    Write(u8, u32),
}

/// Four disk slots and the RAM offset of the sector buffer.
pub struct DiskController {
    pub disk: Vec<Option<Disk>>,
    pub buffer_pointer: u32,
    pub request: Option<DiskRequest>,
}

impl DiskController {
    pub open spec fn wf(&self) -> bool {
        self.disk@.len() == DISK_COUNT
    }

    pub fn new() -> (r: DiskController)
        ensures
            r.wf(),
            forall|i: int| 0 <= i < DISK_COUNT ==> r.disk@[i] is None,
            r.buffer_pointer == 0,
            r.request is None,
    {
        DiskController { disk: vec![None, None, None, None], buffer_pointer: 0, request: None }
    }

    /// Mounts an image of `size` bytes in slot `disk_id`.
    pub fn insert(&mut self, size: u64, disk_id: u8)
        requires
            old(self).wf(),
            disk_id < DISK_COUNT,
        ensures
            final(self).wf(),
            final(self).disk@ == old(self).disk@.update(disk_id as int, Some(Disk { size, current_sector: 0 })),
            final(self).buffer_pointer == old(self).buffer_pointer,
            final(self).request == old(self).request,
    {
        self.disk.set(disk_id as usize, Some(Disk::new(size)));
    }

    pub fn remove(&mut self, disk_id: u8)
        requires
            old(self).wf(),
            disk_id < DISK_COUNT,
        ensures
            final(self).wf(),
            final(self).disk@ == old(self).disk@.update(disk_id as int, None),
            final(self).buffer_pointer == old(self).buffer_pointer,
            final(self).request == old(self).request,
    {
        self.disk.set(disk_id as usize, None);
    }

    /// The size of the disk in slot `disk_id`, 0 when none is mounted.
    pub fn get_size(&self, disk_id: u8) -> (r: u64)
        requires
            self.wf(),
            disk_id < DISK_COUNT,
        ensures
            r == match self.disk@[disk_id as int] {
                Some(d) => d.size,
                None => 0,
            },
    {
        match self.disk[disk_id as usize] {
            Some(d) => d.size,
            None => 0,
        }
    }

    /// The sector last sought on the disk in slot `disk_id`, if one is mounted.
    pub fn get_current_sector(&self, disk_id: u8) -> (r: Option<u32>)
        requires
            self.wf(),
            disk_id < DISK_COUNT,
        ensures
            r == match self.disk@[disk_id as int] {
                Some(d) => Some(d.current_sector),
                None => None,
            },
    {
        match self.disk[disk_id as usize] {
            Some(d) => Some(d.current_sector),
            None => None,
        }
    }

    /// Seeks the disk in slot `disk_id` to `sector`. Fails when no disk is
    /// mounted there or the sector starts beyond the end of the image.
    pub fn set_current_sector(&mut self, disk_id: u8, sector: u32) -> (r: bool)
        requires
            old(self).wf(),
            disk_id < DISK_COUNT,
        ensures
            final(self).wf(),
            r == match old(self).disk@[disk_id as int] {
                Some(d) => sector as int * SECTOR_SIZE <= d.size,
                None => false,
            },
            r ==> final(self).disk@ == old(self).disk@.update(
                disk_id as int,
                Some(Disk { current_sector: sector, ..old(self).disk@[disk_id as int].unwrap() }),
            ),
            !r ==> final(self).disk@ == old(self).disk@,
            final(self).buffer_pointer == old(self).buffer_pointer,
            final(self).request == old(self).request,
    {
        match self.disk[disk_id as usize] {
            Some(d) => {
                if (sector as u64) * (SECTOR_SIZE as u64) <= d.size {
                    self.disk.set(disk_id as usize, Some(Disk { current_sector: sector, ..d }));
                    true
                } else {
                    false
                }
            },
            None => false,
        }
    }
    /// The 512 bytes of the sector buffer, which a sector write stores on the
    /// disk; `None` when the buffer does not fit in RAM.
    pub fn write_from_memory(&self, memory: &Memory) -> (r: Option<Vec<u8>>)
        requires
            self.wf(),
            memory@.wf(),
        ensures
            self.buffer_pointer as int + SECTOR_SIZE <= MEMORY_RAM_SIZE ==> r is Some && r.unwrap()@
                == memory@.ram.subrange(
                self.buffer_pointer as int,
                self.buffer_pointer + SECTOR_SIZE,
            ),
            self.buffer_pointer as int + SECTOR_SIZE > MEMORY_RAM_SIZE ==> r is None,
    {
        if (self.buffer_pointer as u64) + (SECTOR_SIZE as u64) > (MEMORY_RAM_SIZE as u64) {
            return None;
        }
        Some(memory.dma_read(self.buffer_pointer as usize, SECTOR_SIZE))
    }

    /// Stores a sector read from a disk into the sector buffer: `data`, and
    /// zeros after it where the image ended early.
    pub fn read_into_memory(&self, memory: &mut Memory, data: &[u8]) -> (r: bool)
        requires
            self.wf(),
            old(memory)@.wf(),
        ensures
            final(memory)@.wf(),
            r == (self.buffer_pointer as int + SECTOR_SIZE <= MEMORY_RAM_SIZE && data@.len() <= SECTOR_SIZE),
            !r ==> final(memory)@ == old(memory)@,
            r ==> ({
                let start = self.buffer_pointer as int;
                let m = old(memory)@;
                let sector = data@ + Seq::new((SECTOR_SIZE - data@.len()) as nat, |i: int| 0u8);
                final(memory)@ == (MemoryView {
                    ram: m.ram.subrange(0, start) + sector + m.ram.subrange(start + SECTOR_SIZE, MEMORY_RAM_SIZE as int),
                    ..m
                })
            }),
    {
        if (self.buffer_pointer as u64) + (SECTOR_SIZE as u64) > (MEMORY_RAM_SIZE as u64) || data.len()
            > SECTOR_SIZE {
            return false;
        }
        let start = self.buffer_pointer as usize;
        let mut sector: Vec<u8> = Vec::new();
        let mut i: usize = 0;
        while i < SECTOR_SIZE
            invariant
                i <= SECTOR_SIZE,
                data@.len() <= SECTOR_SIZE,
                sector@.len() == i,
                forall|j: int| 0 <= j < i ==> #[trigger] sector@[j] == if j < data@.len() { data@[j] } else { 0u8 },
            decreases SECTOR_SIZE - i,
        {
            if i < data.len() {
                sector.push(data[i]);
            } else {
                sector.push(0u8);
            }
            i = i + 1;
        }
        assert(sector@ =~= data@ + Seq::new((SECTOR_SIZE - data@.len()) as nat, |i: int| 0u8));
        memory.dma_write(start, sector.as_slice());
        true
    }
}

} // verus!
