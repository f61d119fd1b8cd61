use vstd::prelude::*;

verus! {

/// Where the two halves of the sample buffer lie in RAM, and their size in
/// bytes.
pub const AUDIO_BUFFER_0_ADDRESS: usize = 0x0212C000;
pub const AUDIO_BUFFER_1_ADDRESS: usize = 0x02134000;
pub const AUDIO_BUFFER_SIZE: usize = 0x8000;
pub const AUDIO_SAMPLE_RATE: u32 = 22050;

/// The interrupt that tells the guest a half has been taken.
pub const AUDIO_INTERRUPT: u8 = 0xFE;

/// A double-buffered mono channel of 16-bit samples.
#[derive(Clone, Copy, Debug, PartialEq, Eq, Structural)]
pub struct AudioChannel {
    pub id: u8,
    pub playing: bool,
    pub sample_rate: u32,
    pub current_buffer_is_0: bool,
}

/// The signed sample of two little-endian bytes.
pub open spec fn sample_of(lo: u8, hi: u8) -> i16 {
    ((lo as u16) | ((hi as u16) << 8)) as i16
}

impl AudioChannel {
    pub fn new(id: u8) -> (r: AudioChannel)
        ensures
            r == (AudioChannel { id, playing: false, sample_rate: AUDIO_SAMPLE_RATE, current_buffer_is_0: true }),
    {
        AudioChannel { id, playing: false, sample_rate: AUDIO_SAMPLE_RATE, current_buffer_is_0: true }
    }

    /// What the guest's write to the audio port does: play or stop, and start
    /// again from the first half.
    pub fn set_playing(&mut self, word: u32)
        ensures
            *final(self) == (AudioChannel { playing: word != 0, current_buffer_is_0: true, ..*old(self) }),
    {
        self.playing = word != 0;
        self.current_buffer_is_0 = true;
    }

    /// One period of the player: when playing, the samples of the current
    /// half of `ram`, and the halves swap. `None` when stopped.
    pub fn take_samples(&mut self, ram: &[u8]) -> (r: Option<Vec<i16>>)
        requires
            ram@.len() >= AUDIO_BUFFER_1_ADDRESS + AUDIO_BUFFER_SIZE,
        ensures
            !old(self).playing ==> r is None && *final(self) == *old(self),
            old(self).playing ==> {
                let base = if old(self).current_buffer_is_0 { AUDIO_BUFFER_0_ADDRESS } else { AUDIO_BUFFER_1_ADDRESS };
                &&& *final(self) == (AudioChannel { current_buffer_is_0: !old(self).current_buffer_is_0, ..*old(self) })
                &&& r is Some
                &&& r.unwrap()@.len() == AUDIO_BUFFER_SIZE / 2
                &&& forall|i: int| 0 <= i < AUDIO_BUFFER_SIZE / 2 ==> #[trigger] r.unwrap()@[i] == sample_of(
                    ram@[base + 2 * i],
                    ram@[base + 2 * i + 1],
                )
            },
    {
        if !self.playing {
            return None;
        }
        let base = if self.current_buffer_is_0 { AUDIO_BUFFER_0_ADDRESS } else { AUDIO_BUFFER_1_ADDRESS };
        self.current_buffer_is_0 = !self.current_buffer_is_0;
        let mut samples: Vec<i16> = Vec::new();
        let mut i: usize = 0;
        while i < AUDIO_BUFFER_SIZE / 2
            invariant
                i <= AUDIO_BUFFER_SIZE / 2,
                base <= AUDIO_BUFFER_1_ADDRESS,
                AUDIO_BUFFER_1_ADDRESS + AUDIO_BUFFER_SIZE <= ram@.len(),
                samples@.len() == i,
                forall|j: int| 0 <= j < i ==> #[trigger] samples@[j] == sample_of(ram@[base + 2 * j], ram@[base + 2 * j + 1]),
            decreases AUDIO_BUFFER_SIZE / 2 - i,
        {
            let lo = ram[base + 2 * i];
            let hi = ram[base + 2 * i + 1];
            samples.push(#[verifier::truncate] (((lo as u16) | ((hi as u16) << 8)) as i16));
            i = i + 1;
        }
        Some(samples)
    }
}

} // verus!
