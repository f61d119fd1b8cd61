use vstd::prelude::*;
use crate::audio::AudioChannel;
use crate::cpu::FatalError;
use crate::disk::{Disk, DiskController, DiskRequest, DISK_COUNT, SECTOR_SIZE};
use crate::display::{Overlay, OVERLAY_COUNT};
use crate::keyboard::Keyboard;
use crate::memory::{Memory, MEMORY_RAM_SIZE};
use crate::mouse::Mouse;

verus! {

pub const PORT_TERMINAL: u32 = 0x00000000;
pub const PORT_OVERLAY_FIRST: u32 = 0x80000000;
pub const PORT_OVERLAY_LAST: u32 = 0x8000031F;
pub const PORT_MOUSE_BUTTONS: u32 = 0x80000400;
pub const PORT_MOUSE_POSITION: u32 = 0x80000401;
pub const PORT_KEYBOARD: u32 = 0x80000500;
pub const PORT_AUDIO: u32 = 0x80000600;
pub const PORT_DISK_FIRST: u32 = 0x80001000;
pub const PORT_DISK_LAST: u32 = 0x80005FFF;

/// The devices as the contracts of the port accesses speak of them.
pub struct IoView {
    pub disk: Seq<Option<Disk>>,
    pub buffer_pointer: u32,
    pub request: Option<DiskRequest>,
    pub audio: AudioChannel,
    pub keyboard: Seq<u8>,
    pub mouse: Mouse,
    pub overlays: Seq<Overlay>,
    /// Bytes written to the terminal port and not yet taken by the host.
    pub terminal: Seq<u8>,
    pub fatal: Option<FatalError>,
}

pub open spec fn pack(hi: u16, lo: u16) -> u32 {
    ((hi as u32) << 16) | (lo as u32)
}

pub open spec fn low_half(word: u32) -> u16 {
    (word & 0xFFFF) as u16
}

pub open spec fn high_half(word: u32) -> u16 {
    (word >> 16) as u16
}

pub open spec fn in_overlay_range(port: u32) -> bool {
    PORT_OVERLAY_FIRST <= port <= PORT_OVERLAY_LAST
}

pub open spec fn in_disk_range(port: u32) -> bool {
    PORT_DISK_FIRST <= port <= PORT_DISK_LAST
}

/// The overlay that an overlay port selects, the setting, the disk slot and
/// the disk operation of a disk port.
pub open spec fn overlay_index(port: u32) -> u32 {
    port & 0xFF
}

pub open spec fn overlay_setting(port: u32) -> u32 {
    (port >> 8) & 0xFF
}

pub open spec fn disk_id(port: u32) -> u32 {
    port & 0xFFF
}

pub open spec fn disk_operation(port: u32) -> u32 {
    (port >> 12) & 0xF
}

pub open spec fn mouse_buttons(m: Mouse) -> u32 {
    (if m.clicked { 1u32 } else { 0 }) | (if m.released { 2u32 } else { 0 }) | (if m.held { 4u32 } else { 0 })
}

impl IoView {
    /// A read of `port`: the devices after it and the value read.
    #[verifier::opaque]
    pub open spec fn io_read(self, port: u32) -> (IoView, u32) {
        if in_overlay_range(port) {
            let n = overlay_index(port);
            if n < OVERLAY_COUNT {
                let o = self.overlays[n as int];
                let setting = overlay_setting(port);
                (self, if setting == 0 {
                    pack(o.y, o.x)
                } else if setting == 1 {
                    pack(o.height, o.width)
                } else if setting == 2 {
                    o.framebuffer_pointer
                } else if setting == 3 {
                    if o.enabled { 1 } else { 0 }
                } else {
                    0
                })
            } else {
                (self, 0)
            }
        } else if port == PORT_MOUSE_BUTTONS {
            (IoView { mouse: Mouse { clicked: false, released: false, ..self.mouse }, ..self }, mouse_buttons(self.mouse))
        } else if port == PORT_MOUSE_POSITION {
            (self, pack(self.mouse.y, self.mouse.x))
        } else if port == PORT_KEYBOARD {
            if self.keyboard.len() == 0 {
                (self, 0)
            } else {
                (IoView { keyboard: self.keyboard.drop_first(), ..self }, self.keyboard[0] as u32)
            }
        } else if in_disk_range(port) {
            let id = disk_id(port);
            let op = disk_operation(port);
            if op == 1 && id < DISK_COUNT {
                (self, match self.disk[id as int] {
                    Some(d) => d.size as u32,
                    None => 0,
                })
            } else if op == 2 {
                (self, self.buffer_pointer)
            } else {
                (self, 0)
            }
        } else {
            (self, 0)
        }
    }

    pub open spec fn write_overlay(self, port: u32, word: u32) -> IoView {
        let n = overlay_index(port);
        let setting = overlay_setting(port);
        if n < OVERLAY_COUNT && setting <= 3 {
            let o = self.overlays[n as int];
            let o2 = if setting == 0 {
                Overlay { x: low_half(word), y: high_half(word), ..o }
            } else if setting == 1 {
                Overlay { width: low_half(word), height: high_half(word), ..o }
            } else if setting == 2 {
                Overlay { framebuffer_pointer: word, ..o }
            } else {
                Overlay { enabled: word != 0, ..o }
            };
            IoView { overlays: self.overlays.update(n as int, o2), ..self }
        } else {
            self
        }
    }

    /// A sector transfer: refused (the machine ends) when the slot is empty,
    /// the sector starts past the end of the disk, or the buffer leaves RAM.
    pub open spec fn transfer(self, id: u32, sector: u32, write: bool) -> IoView {
        match self.disk[id as int] {
            None => IoView { fatal: Some(FatalError::DiskNotInserted(id as u8)), ..self },
            Some(d) => if sector as int * SECTOR_SIZE > d.size {
                IoView { fatal: Some(FatalError::DiskSeek(id as u8, sector)), ..self }
            } else if self.buffer_pointer as int + SECTOR_SIZE > MEMORY_RAM_SIZE {
                IoView { fatal: Some(FatalError::DiskBuffer(self.buffer_pointer)), ..self }
            } else {
                IoView {
                    disk: self.disk.update(id as int, Some(Disk { current_sector: sector, ..d })),
                    request: Some(if write { DiskRequest::Write(id as u8, sector) } else { DiskRequest::Read(id as u8, sector) }),
                    ..self
                }
            },
        }
    }

    pub open spec fn write_disk(self, port: u32, word: u32) -> IoView {
        let id = disk_id(port);
        let op = disk_operation(port);
        if op == 2 {
            IoView { buffer_pointer: word, ..self }
        } else if id >= DISK_COUNT {
            self
        } else if op == 1 {
            IoView { request: Some(DiskRequest::Insert(id as u8)), ..self }
        } else if op == 3 {
            self.transfer(id, word, false)
        } else if op == 4 {
            self.transfer(id, word, true)
        } else if op == 5 {
            IoView { disk: self.disk.update(id as int, None), ..self }
        } else {
            self
        }
    }

    /// A write of `word` to `port`.
    #[verifier::opaque]
    pub open spec fn io_write(self, port: u32, word: u32) -> IoView {
        if port == PORT_TERMINAL {
            IoView { terminal: self.terminal.push(word as u8), ..self }
        } else if in_overlay_range(port) {
            self.write_overlay(port, word)
        } else if port == PORT_MOUSE_BUTTONS {
            IoView {
                mouse: Mouse { clicked: word & 1 != 0, released: word & 2 != 0, held: word & 4 != 0, ..self.mouse },
                ..self
            }
        } else if port == PORT_MOUSE_POSITION {
            IoView { mouse: Mouse { x: low_half(word), y: high_half(word), ..self.mouse }, ..self }
        } else if port == PORT_AUDIO {
            IoView { audio: AudioChannel { playing: word != 0, current_buffer_is_0: true, ..self.audio }, ..self }
        } else if in_disk_range(port) {
            self.write_disk(port, word)
        } else {
            self
        }
    }
}

/// Memory and the devices that the port instructions reach.
pub struct Bus {
    pub memory: Memory,
    pub disk_controller: DiskController,
    pub audio: AudioChannel,
    pub keyboard: Keyboard,
    pub mouse: Mouse,
    pub overlays: Vec<Overlay>,
    pub terminal: Vec<u8>,
    pub fatal: Option<FatalError>,
}

impl Bus {
    pub open spec fn wf(&self) -> bool {
        &&& self.memory@.wf()
        &&& self.disk_controller.wf()
        &&& self.keyboard.wf()
        &&& self.overlays@.len() == OVERLAY_COUNT
    }

    pub open spec fn io(&self) -> IoView {
        IoView {
            disk: self.disk_controller.disk@,
            buffer_pointer: self.disk_controller.buffer_pointer,
            request: self.disk_controller.request,
            audio: self.audio,
            keyboard: self.keyboard@,
            mouse: self.mouse,
            overlays: self.overlays@,
            terminal: self.terminal@,
            fatal: self.fatal,
        }
    }

    /// Fresh devices around `memory`: no disks, audio stopped, overlays off.
    pub fn new(memory: Memory) -> (r: Bus)
        requires
            memory@.wf(),
        ensures
            r.wf(),
            r.memory == memory,
            forall|i: int| 0 <= i < DISK_COUNT ==> r.io().disk[i] is None,
            r.io().buffer_pointer == 0,
            r.io().request is None,
            r.io().audio == (AudioChannel { id: 0, playing: false, sample_rate: crate::audio::AUDIO_SAMPLE_RATE, current_buffer_is_0: true }),
            r.io().keyboard == Seq::<u8>::empty(),
            r.io().mouse == (Mouse { x: 0, y: 0, clicked: false, released: false, held: false }),
            forall|i: int| 0 <= i < OVERLAY_COUNT ==> r.io().overlays[i] == (Overlay {
                enabled: false,
                width: 16,
                height: 16,
                x: 0,
                y: 0,
                framebuffer_pointer: 0,
            }),
            r.io().terminal == Seq::<u8>::empty(),
            r.io().fatal is None,
    {
        let mut overlays: Vec<Overlay> = Vec::new();
        let mut i: usize = 0;
        while i < OVERLAY_COUNT
            invariant
                i <= OVERLAY_COUNT,
                overlays@.len() == i,
                forall|j: int| 0 <= j < i ==> overlays@[j] == (Overlay {
                    enabled: false,
                    width: 16,
                    height: 16,
                    x: 0,
                    y: 0,
                    framebuffer_pointer: 0,
                }),
            decreases OVERLAY_COUNT - i,
        {
            overlays.push(Overlay::new());
            i = i + 1;
        }
        Bus {
            memory,
            disk_controller: DiskController::new(),
            audio: AudioChannel::new(0),
            keyboard: Keyboard::new(),
            mouse: Mouse::new(),
            overlays,
            terminal: Vec::new(),
            fatal: None,
        }
    }

    /// Reads a port. Reads of ports that no device answers give 0.
    pub fn read_io(&mut self, port: u32) -> (r: u32)
        requires
            old(self).wf(),
        ensures
            final(self).wf(),
            final(self).memory == old(self).memory,
            (final(self).io(), r) == old(self).io().io_read(port),
    {
        reveal(IoView::io_read);
        if PORT_OVERLAY_FIRST <= port && port <= PORT_OVERLAY_LAST {
            let n = port & 0xFF;
            let setting = (port >> 8) & 0xFF;
            if (n as usize) < OVERLAY_COUNT {
                let o = self.overlays[n as usize];
                if setting == 0 {
                    ((o.y as u32) << 16) | (o.x as u32)
                } else if setting == 1 {
                    ((o.height as u32) << 16) | (o.width as u32)
                } else if setting == 2 {
                    o.framebuffer_pointer
                } else if setting == 3 {
                    if o.enabled { 1 } else { 0 }
                } else {
                    0
                }
            } else {
                0
            }
        } else if port == PORT_MOUSE_BUTTONS {
            let byte: u32 = (if self.mouse.clicked { 1u32 } else { 0 }) | (if self.mouse.released { 2u32 } else { 0 }) | (
            if self.mouse.held { 4u32 } else { 0 });
            self.mouse.clicked = false;
            self.mouse.released = false;
            byte
        } else if port == PORT_MOUSE_POSITION {
            ((self.mouse.y as u32) << 16) | (self.mouse.x as u32)
        } else if port == PORT_KEYBOARD {
            self.keyboard.pop() as u32
        } else if PORT_DISK_FIRST <= port && port <= PORT_DISK_LAST {
            let id = port & 0xFFF;
            let op = (port >> 12) & 0xF;
            if op == 1 && (id as usize) < DISK_COUNT {
                self.disk_controller.get_size(id as u8) as u32
            } else if op == 2 {
                self.disk_controller.buffer_pointer
            } else {
                0
            }
        } else {
            0
        }
    }

    fn write_overlay(&mut self, port: u32, word: u32)
        requires
            old(self).wf(),
        ensures
            final(self).wf(),
            final(self).memory == old(self).memory,
            final(self).io() == old(self).io().write_overlay(port, word),
    {
        let n = port & 0xFF;
        let setting = (port >> 8) & 0xFF;
        if (n as usize) < OVERLAY_COUNT && setting <= 3 {
            let o = self.overlays[n as usize];
            let o2 = if setting == 0 {
                Overlay { x: (word & 0xFFFF) as u16, y: (word >> 16) as u16, ..o }
            } else if setting == 1 {
                Overlay { width: (word & 0xFFFF) as u16, height: (word >> 16) as u16, ..o }
            } else if setting == 2 {
                Overlay { framebuffer_pointer: word, ..o }
            } else {
                Overlay { enabled: word != 0, ..o }
            };
            self.overlays.set(n as usize, o2);
        }
    }

    fn transfer(&mut self, id: u8, sector: u32, write: bool)
        requires
            old(self).wf(),
            id < DISK_COUNT,
        ensures
            final(self).wf(),
            final(self).memory == old(self).memory,
            final(self).io() == old(self).io().transfer(id as u32, sector, write),
    {
        match self.disk_controller.disk[id as usize] {
            None => {
                self.fatal = Some(FatalError::DiskNotInserted(id));
            },
            Some(_) => {
                if (self.disk_controller.buffer_pointer as u64) + (SECTOR_SIZE as u64) > (MEMORY_RAM_SIZE as u64) {
                    if !((sector as u64) * (SECTOR_SIZE as u64) <= self.disk_controller.get_size(id)) {
                        self.fatal = Some(FatalError::DiskSeek(id, sector));
                    } else {
                        self.fatal = Some(FatalError::DiskBuffer(self.disk_controller.buffer_pointer));
                    }
                } else if self.disk_controller.set_current_sector(id, sector) {
                    self.disk_controller.request = Some(
                        if write { DiskRequest::Write(id, sector) } else { DiskRequest::Read(id, sector) },
                    );
                } else {
                    self.fatal = Some(FatalError::DiskSeek(id, sector));
                }
            },
        }
    }

    /// Writes a port. Writes to ports that no device answers are ignored.
    pub fn write_io(&mut self, port: u32, word: u32)
        requires
            old(self).wf(),
        ensures
            final(self).wf(),
            final(self).memory == old(self).memory,
            final(self).io() == old(self).io().io_write(port, word),
    {
        reveal(IoView::io_write);
        if port == PORT_TERMINAL {
            self.terminal.push(word as u8);
        } else if PORT_OVERLAY_FIRST <= port && port <= PORT_OVERLAY_LAST {
            self.write_overlay(port, word);
        } else if port == PORT_MOUSE_BUTTONS {
            self.mouse.clicked = word & 1 != 0;
            self.mouse.released = word & 2 != 0;
            self.mouse.held = word & 4 != 0;
        } else if port == PORT_MOUSE_POSITION {
            self.mouse.x = (word & 0xFFFF) as u16;
            self.mouse.y = (word >> 16) as u16;
        } else if port == PORT_AUDIO {
            self.audio.set_playing(word);
        } else if PORT_DISK_FIRST <= port && port <= PORT_DISK_LAST {
            let id = port & 0xFFF;
            let op = (port >> 12) & 0xF;
            if op == 2 {
                self.disk_controller.buffer_pointer = word;
            } else if (id as usize) >= DISK_COUNT {
            } else if op == 1 {
                self.disk_controller.request = Some(DiskRequest::Insert(id as u8));
            } else if op == 3 {
                self.transfer(id as u8, word, false);
            } else if op == 4 {
                self.transfer(id as u8, word, true);
            } else if op == 5 {
                self.disk_controller.remove(id as u8);
            }
        }
    }

    /// Hands out the terminal bytes written so far, and forgets them.
    pub fn take_terminal_output(&mut self) -> (r: Vec<u8>)
        requires
            old(self).wf(),
        ensures
            final(self).wf(),
            r@ == old(self).io().terminal,
            final(self).io() == (IoView { terminal: Seq::empty(), ..old(self).io() }),
            final(self).memory == old(self).memory,
    {
        let mut out: Vec<u8> = Vec::new();
        std::mem::swap(&mut out, &mut self.terminal);
        out
    }

    /// Hands out the disk work waiting for the host, and forgets it.
    pub fn take_disk_request(&mut self) -> (r: Option<DiskRequest>)
        requires
            old(self).wf(),
        ensures
            final(self).wf(),
            r == old(self).io().request,
            final(self).io() == (IoView { request: None, ..old(self).io() }),
            final(self).memory == old(self).memory,
    {
        let r = self.disk_controller.request;
        self.disk_controller.request = None;
        r
    }
}

} // verus!
