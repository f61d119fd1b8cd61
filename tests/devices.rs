use fox32::audio::{AudioChannel, AUDIO_BUFFER_0_ADDRESS, AUDIO_BUFFER_1_ADDRESS, AUDIO_BUFFER_SIZE};
use fox32::bus::Bus;
use fox32::cpu::FatalError;
use fox32::disk::{Disk, DiskController, DiskRequest};
use fox32::display::{blit_overlay, Display, Overlay, FRAMEBUFFER_ADDRESS, HEIGHT, WIDTH};
use fox32::keyboard::{Key, Keyboard};
use fox32::memory::Memory;
use fox32::mouse::Mouse;

fn bus() -> Bus {
    Bus::new(Memory::new(&[]))
}

#[test]
fn disk_sector_read_lands_in_buffer() {
    let mut b = bus();
    b.disk_controller.insert(1024, 0);
    b.write_io(0x8000_2000, 0x1000);
    assert_eq!(b.read_io(0x8000_2000), 0x1000);
    b.write_io(0x8000_3000, 0);
    assert_eq!(b.take_disk_request(), Some(DiskRequest::Read(0, 0)));
    let sector: Vec<u8> = (0..512).map(|i| (i * 7 % 251) as u8).collect();
    assert!(b.disk_controller.read_into_memory(&mut b.memory, &sector));
    assert_eq!(&b.memory.ram()[0x1000..0x1200], &sector[..]);
    assert_eq!(b.memory.ram()[0x1200], 0);
    assert_eq!(b.disk_controller.get_current_sector(0), Some(0));
}

#[test]
fn short_sector_is_padded_with_zeros() {
    let mut b = bus();
    b.write_io(0x8000_2000, 0x2000);
    assert!(b.memory.write_8(0x2010, 0xAA));
    assert!(b.disk_controller.read_into_memory(&mut b.memory, &[1, 2, 3]));
    assert_eq!(&b.memory.ram()[0x2000..0x2003], &[1, 2, 3]);
    assert_eq!(b.memory.ram()[0x2010], 0);
}

#[test]
fn disk_write_request_and_buffer() {
    let mut b = bus();
    b.disk_controller.insert(2048, 1);
    b.write_io(0x8000_2000, 0x3000);
    assert!(b.memory.write_8(0x3000, 9));
    b.write_io(0x8000_4001, 3);
    assert_eq!(b.take_disk_request(), Some(DiskRequest::Write(1, 3)));
    let buffer = b.disk_controller.write_from_memory(&b.memory).unwrap();
    assert_eq!(buffer.len(), 512);
    assert_eq!(buffer[0], 9);
}

#[test]
fn disk_size_and_unmount() {
    let mut b = bus();
    assert_eq!(b.read_io(0x8000_1002), 0);
    b.disk_controller.insert(4096, 2);
    assert_eq!(b.read_io(0x8000_1002), 4096);
    b.write_io(0x8000_5002, 0);
    assert_eq!(b.read_io(0x8000_1002), 0);
    b.write_io(0x8000_1003, 0);
    assert_eq!(b.take_disk_request(), Some(DiskRequest::Insert(3)));
}

#[test]
fn disk_errors_end_machine() {
    let mut b = bus();
    b.write_io(0x8000_3000, 0);
    assert_eq!(b.fatal, Some(FatalError::DiskNotInserted(0)));
    let mut b = bus();
    b.disk_controller.insert(1024, 0);
    b.write_io(0x8000_3000, 3);
    assert_eq!(b.fatal, Some(FatalError::DiskSeek(0, 3)));
    let mut b = bus();
    b.disk_controller.insert(1024, 0);
    b.write_io(0x8000_2000, 0xFFFF_FF00);
    b.write_io(0x8000_3000, 1);
    assert_eq!(b.fatal, Some(FatalError::DiskBuffer(0xFFFF_FF00)));
}

#[test]
fn disk_controller_seek() {
    let mut d = DiskController::new();
    assert!(!d.set_current_sector(0, 0));
    d.insert(1024, 0);
    assert_eq!(d.get_size(0), 1024);
    assert!(d.set_current_sector(0, 2));
    assert!(!d.set_current_sector(0, 3));
    assert_eq!(d.get_current_sector(0), Some(2));
    d.remove(0);
    assert_eq!(d.get_current_sector(0), None);
    assert_eq!(Disk::new(5), Disk { size: 5, current_sector: 0 });
}

#[test]
fn overlay_ports() {
    let mut b = bus();
    b.write_io(0x8000_0005, (20 << 16) | 10);
    b.write_io(0x8000_0105, (30 << 16) | 40);
    b.write_io(0x8000_0205, 0x1234);
    b.write_io(0x8000_0305, 1);
    assert_eq!(b.read_io(0x8000_0005), (20 << 16) | 10);
    assert_eq!(b.read_io(0x8000_0105), (30 << 16) | 40);
    assert_eq!(b.read_io(0x8000_0205), 0x1234);
    assert_eq!(b.read_io(0x8000_0305), 1);
    assert_eq!(b.overlays[5], Overlay { enabled: true, width: 40, height: 30, x: 10, y: 20, framebuffer_pointer: 0x1234 });
    assert_eq!(b.read_io(0x8000_0105 + 0x20), 0);
}

#[test]
fn mouse_edges_clear_on_read() {
    let mut b = bus();
    b.write_io(0x8000_0400, 0b111);
    assert_eq!(b.read_io(0x8000_0400), 0b111);
    assert_eq!(b.read_io(0x8000_0400), 0b100);
    b.write_io(0x8000_0401, (7 << 16) | 9);
    assert_eq!(b.read_io(0x8000_0401), (7 << 16) | 9);
    assert_eq!(b.mouse, Mouse { x: 9, y: 7, clicked: false, released: false, held: true });
    assert_eq!(Mouse::new(), Mouse { x: 0, y: 0, clicked: false, released: false, held: false });
}

#[test]
fn keyboard_port_pops_in_order() {
    let mut b = bus();
    assert!(b.keyboard.push(0x1E));
    assert!(b.keyboard.push(0x9E));
    assert_eq!(b.read_io(0x8000_0500), 0x1E);
    assert_eq!(b.read_io(0x8000_0500), 0x9E);
    assert_eq!(b.read_io(0x8000_0500), 0);
}

#[test]
fn keyboard_drops_when_full() {
    let mut k = Keyboard::new();
    for i in 0..32u8 {
        assert!(k.push(i + 1));
    }
    assert!(!k.push(99));
    assert_eq!(k.pop(), 1);
    assert!(k.push(100));
    for i in 1..32u8 {
        assert_eq!(k.pop(), i + 1);
    }
    assert_eq!(k.pop(), 100);
    assert_eq!(k.pop(), 0);
}

#[test]
fn unknown_ports_read_zero() {
    let mut b = bus();
    assert_eq!(b.read_io(0x1234), 0);
    b.write_io(0x1234, 5);
    assert_eq!(b.read_io(0x8000_0600), 0);
}

#[test]
fn terminal_collects_bytes() {
    let mut b = bus();
    b.write_io(0, 0x148);
    b.write_io(0, 0x69);
    assert_eq!(b.take_terminal_output(), b"Hi".to_vec());
    assert!(b.take_terminal_output().is_empty());
}

#[test]
fn audio_port_and_halves() {
    let mut b = bus();
    b.write_io(0x8000_0600, 1);
    assert!(b.audio.playing);
    assert!(b.audio.current_buffer_is_0);
    let a0 = AUDIO_BUFFER_0_ADDRESS as u32;
    let a1 = AUDIO_BUFFER_1_ADDRESS as u32;
    assert!(b.memory.write_16(a0, 0xFFFE));
    assert!(b.memory.write_16(a1 + 2, 0x0102));
    let mut audio = b.audio;
    let first = audio.take_samples(b.memory.ram()).unwrap();
    assert_eq!(first.len(), AUDIO_BUFFER_SIZE / 2);
    assert_eq!(first[0], -2);
    assert!(!audio.current_buffer_is_0);
    let second = audio.take_samples(b.memory.ram()).unwrap();
    assert_eq!(second[1], 0x0102);
    assert!(audio.current_buffer_is_0);
    audio.set_playing(0);
    assert_eq!(audio.take_samples(b.memory.ram()), None);
    assert_eq!(AudioChannel::new(2).sample_rate, 22050);
}

#[test]
fn overlay_blit_skips_transparent_and_clips() {
    let mut ram = vec![0u8; 0x100];
    // a 2x1 overlay: one opaque red pixel, one transparent one
    ram[0x10..0x14].copy_from_slice(&[255, 0, 0, 255]);
    ram[0x14..0x18].copy_from_slice(&[0, 255, 0, 0]);
    let mut screen = vec![7u8; WIDTH * HEIGHT * 4];
    let o = Overlay { enabled: true, width: 2, height: 1, x: (WIDTH - 2) as u16, y: 0, framebuffer_pointer: 0x10 };
    blit_overlay(&mut screen, &o, &ram);
    let first = (WIDTH - 2) * 4;
    assert_eq!(&screen[first..first + 4], &[255, 0, 0, 255]);
    assert_eq!(&screen[first + 4..first + 8], &[7, 7, 7, 7]);
    // half off the right edge: only the visible column is drawn
    let mut screen = vec![7u8; WIDTH * HEIGHT * 4];
    let o = Overlay { x: (WIDTH - 1) as u16, ..o };
    blit_overlay(&mut screen, &o, &ram);
    assert_eq!(&screen[(WIDTH - 1) * 4..WIDTH * 4], &[255, 0, 0, 255]);
    assert_eq!(&screen[WIDTH * 4..WIDTH * 4 + 4], &[7, 7, 7, 7]);
}

#[test]
fn display_composes_background_and_overlays() {
    let mut ram = vec![0u8; FRAMEBUFFER_ADDRESS + WIDTH * HEIGHT * 4];
    ram[FRAMEBUFFER_ADDRESS] = 1;
    ram[0x20..0x24].copy_from_slice(&[9, 9, 9, 9]);
    ram[0x40..0x44].copy_from_slice(&[5, 5, 5, 5]);
    let below = Overlay { enabled: true, width: 1, height: 1, x: 1, y: 0, framebuffer_pointer: 0x20 };
    let above = Overlay { framebuffer_pointer: 0x40, ..below };
    let off = Overlay { enabled: false, x: 2, ..below };
    let mut d = Display::new();
    d.update(&ram, &[below, above, off]);
    let frame = d.draw();
    assert_eq!(frame[0], 1);
    assert_eq!(&frame[4..8], &[5, 5, 5, 5]);
    assert_eq!(&frame[8..12], &[0, 0, 0, 0]);
    assert_eq!(Overlay::new(), Overlay { enabled: false, width: 16, height: 16, x: 0, y: 0, framebuffer_pointer: 0 });
}

#[test]
fn key_events_become_scancodes() {
    assert_eq!(Keyboard::keycode_to_scancode(Key::A), 0x1E);
    assert_eq!(Keyboard::keycode_to_scancode(Key::Escape), 0x01);
    assert_eq!(Keyboard::keycode_to_scancode(Key::Right), 0x6A);
    assert_eq!(Keyboard::keycode_to_scancode(Key::Other), 0x00);
    let mut k = Keyboard::new();
    assert!(k.push_key(Some(Key::A), false));
    assert!(k.push_key(Some(Key::A), true));
    assert!(k.push_key(Some(Key::Other), true));
    assert!(k.push_key(None, false));
    assert_eq!(k.pop(), 0x1E);
    assert_eq!(k.pop(), 0x9E);
    assert_eq!(k.pop(), 0x00);
    assert_eq!(k.pop(), 0x00);
}
