use vstd::prelude::*;

verus! {

pub const WIDTH: usize = 640;
pub const HEIGHT: usize = 480;
pub const OVERLAY_COUNT: usize = 32;

/// Where the background image lies in RAM: `WIDTH * HEIGHT` RGBA pixels.
pub const FRAMEBUFFER_ADDRESS: usize = 0x02000000;

/// A rectangle of RGBA pixels in RAM drawn over the background.
#[derive(Clone, Copy, Debug, PartialEq, Eq, Structural)]
pub struct Overlay {
    pub enabled: bool,
    pub width: u16,
    pub height: u16,
    pub x: u16,
    pub y: u16,
    pub framebuffer_pointer: u32,
}

impl Overlay {
    /// A disabled 16 by 16 overlay at the origin.
    pub fn new() -> (r: Overlay)
        ensures
            r == (Overlay { enabled: false, width: 16, height: 16, x: 0, y: 0, framebuffer_pointer: 0 }),
    {
        Overlay { enabled: false, width: 16, height: 16, x: 0, y: 0, framebuffer_pointer: 0 }
    }
}


/// Whether the pixel at column `px`, row `py` of the screen lies under the
/// overlay, clipped to the right and bottom edges of the screen.
pub open spec fn covers(o: Overlay, px: int, py: int) -> bool {
    &&& o.x <= px < o.x + o.width
    &&& o.y <= py < o.y + o.height
    &&& 0 <= px < WIDTH
    &&& 0 <= py < HEIGHT
}

/// Where in RAM the overlay keeps the pixel that lands on (`px`, `py`).
pub open spec fn source_of(o: Overlay, px: int, py: int) -> int {
    o.framebuffer_pointer + ((py - o.y) * o.width + (px - o.x)) * 4
}

/// Whether the overlay draws that pixel: it covers it, its pixel lies in
/// RAM, and that pixel's alpha byte is not zero.
pub open spec fn draws(o: Overlay, ram: Seq<u8>, px: int, py: int) -> bool {
    &&& covers(o, px, py)
    &&& source_of(o, px, py) + 4 <= ram.len()
    &&& ram[source_of(o, px, py) + 3] != 0
}

/// The screen after blitting the overlay: each drawn pixel takes the
/// overlay's four bytes, the others keep theirs.
pub open spec fn blitted(screen: Seq<u8>, o: Overlay, ram: Seq<u8>) -> Seq<u8> {
    Seq::new(
        screen.len(),
        |i: int|
            {
                let p = i / 4;
                let px = p % (WIDTH as int);
                let py = p / (WIDTH as int);
                if draws(o, ram, px, py) {
                    ram[source_of(o, px, py) + i % 4]
                } else {
                    screen[i]
                }
            },
    )
}

/// Blits `overlay` from `ram` onto the screen `framebuffer` (RGBA, `WIDTH`
/// by `HEIGHT`). A pixel with alpha 0 is transparent.
pub fn blit_overlay(framebuffer: &mut Vec<u8>, overlay: &Overlay, ram: &[u8])
    requires
        old(framebuffer)@.len() == WIDTH * HEIGHT * 4,
    ensures
        final(framebuffer)@ == blitted(old(framebuffer)@, *overlay, ram@),
{
    let ghost before = framebuffer@;
    let mut p: usize = 0;
    while p < WIDTH * HEIGHT
        invariant
            p <= WIDTH * HEIGHT,
            framebuffer@.len() == WIDTH * HEIGHT * 4,
            before.len() == WIDTH * HEIGHT * 4,
            forall|i: int| 0 <= i < WIDTH * HEIGHT * 4 ==> #[trigger] framebuffer@[i] == if i < 4 * p {
                blitted(before, *overlay, ram@)[i]
            } else {
                before[i]
            },
        decreases WIDTH * HEIGHT - p,
    {
        let px = p % WIDTH;
        let py = p / WIDTH;
        let x = overlay.x as usize;
        let y = overlay.y as usize;
        let w = overlay.width as usize;
        let h = overlay.height as usize;
        if x <= px && px < x + w && y <= py && py < y + h {
            let row = (py - y) as u64;
            let col = (px - x) as u64;
            proof {
                assert(row * (w as u64) + col < 0x10000 * 0x10000) by (nonlinear_arith)
                    requires row < h, h <= 0xFFFF, col < w, w <= 0xFFFF;
            }
            let source = (overlay.framebuffer_pointer as u64) + (row * (w as u64) + col) * 4;
            if source + 4 <= ram.len() as u64 && ram[source as usize + 3] != 0 {
                let s = source as usize;
                framebuffer.set(4 * p, ram[s]);
                framebuffer.set(4 * p + 1, ram[s + 1]);
                framebuffer.set(4 * p + 2, ram[s + 2]);
                framebuffer.set(4 * p + 3, ram[s + 3]);
            }
        }
        proof {
            assert forall|k: int| 0 <= k < 4 implies (#[trigger] (4 * p + k)) / 4 == p && (4 * p + k) % 4 == k by {
                assert((4 * p + k) / 4 == p && (4 * p + k) % 4 == k) by (nonlinear_arith)
                    requires 0 <= k < 4;
            }
            assert forall|i: int| 4 * p <= i < 4 * p + 4 implies #[trigger] framebuffer@[i] == blitted(before, *overlay, ram@)[i] by {
                let k = i - 4 * p;
                assert(i == 4 * p + k);
            }
        }
        p = p + 1;
    }
}

/// The screen after the background from RAM and the first `n` overlays,
/// in index order, the enabled ones drawn over it.
pub open spec fn composed(ram: Seq<u8>, overlays: Seq<Overlay>, n: nat) -> Seq<u8>
    decreases n,
{
    if n == 0 {
        ram.subrange(FRAMEBUFFER_ADDRESS as int, FRAMEBUFFER_ADDRESS + WIDTH * HEIGHT * 4)
    } else {
        let below = composed(ram, overlays, (n - 1) as nat);
        if overlays[n - 1].enabled {
            blitted(below, overlays[n - 1], ram)
        } else {
            below
        }
    }
}

/// The background image and the compositor's output.
pub struct Display {
    pub background: Vec<u8>,
}

impl Display {
    pub fn new() -> (r: Display)
        ensures
            r.background@.len() == WIDTH * HEIGHT * 4,
            forall|i: int| 0 <= i < WIDTH * HEIGHT * 4 ==> r.background@[i] == 0,
    {
        Display { background: vec![0u8; WIDTH * HEIGHT * 4] }
    }

    /// Composes a frame: the background from RAM, then each enabled overlay
    /// in index order.
    pub fn update(&mut self, ram: &[u8], overlays: &[Overlay])
        requires
            ram@.len() >= FRAMEBUFFER_ADDRESS + WIDTH * HEIGHT * 4,
        ensures
            final(self).background@ == composed(ram@, overlays@, overlays@.len()),
    {
        let mut background: Vec<u8> = Vec::new();
        let mut i: usize = 0;
        while i < WIDTH * HEIGHT * 4
            invariant
                i <= WIDTH * HEIGHT * 4,
                ram@.len() >= FRAMEBUFFER_ADDRESS + WIDTH * HEIGHT * 4,
                background@ =~= ram@.subrange(FRAMEBUFFER_ADDRESS as int, FRAMEBUFFER_ADDRESS + i),
            decreases WIDTH * HEIGHT * 4 - i,
        {
            background.push(ram[FRAMEBUFFER_ADDRESS + i]);
            i = i + 1;
        }
        let mut n: usize = 0;
        while n < overlays.len()
            invariant
                n <= overlays@.len(),
                background@ == composed(ram@, overlays@, n as nat),
                background@.len() == WIDTH * HEIGHT * 4,
            decreases overlays@.len() - n,
        {
            if overlays[n].enabled {
                blit_overlay(&mut background, &overlays[n], ram);
            }
            n = n + 1;
        }
        self.background = background;
    }

    /// The composed frame, four bytes per pixel, row after row.
    pub fn draw(&self) -> (r: Vec<u8>)
        ensures
            r@ == self.background@,
    {
        self.background.clone()
    }
}

} // verus!
