//! The resources shared with the host: the monochrome framebuffer the
//! display renders from, the 16-key input snapshot, and the audio handle.
//!
//! The interpreter core reads and writes these as plain data; the host
//! arbitrates any sharing between its display and input threads and hands
//! the core exclusive access for the duration of an operation.

use vstd::prelude::*;

verus! {

/// Framebuffer width in pixels.
pub const SCREEN_W: usize = 64;

/// Framebuffer height in pixels.
pub const SCREEN_H: usize = 32;

/// Number of pixels in the framebuffer.
pub const PIXEL_COUNT: usize = 2048;

/// The 64×32 monochrome framebuffer, one byte per pixel, each 0 or 1,
/// stored column-major: pixel `(x, y)` lives at index `x * 32 + y`.
pub struct Vram {
    pub pixels: Vec<u8>,
}

impl Vram {
    /// Every pixel present and either off (0) or on (1).
    pub open spec fn wf(self) -> bool {
        &&& self.pixels@.len() == PIXEL_COUNT
        &&& forall|k: int| 0 <= k < PIXEL_COUNT ==> #[trigger] self.pixels@[k] <= 1
    }

    /// A framebuffer with every pixel off.
    pub fn new() -> (r: Vram)
        ensures
            r.wf(),
            forall|k: int| 0 <= k < PIXEL_COUNT ==> #[trigger] r.pixels@[k] == 0,
    {
        Vram { pixels: vec![0u8; PIXEL_COUNT] }
    }

    /// The pixel at `(x, y)`.
    pub fn pixel(&self, x: usize, y: usize) -> (r: u8)
        requires
            self.wf(),
            x < SCREEN_W,
            y < SCREEN_H,
        ensures
            r == self.pixels@[x as int * 32 + y],
    {
        self.pixels[x * 32 + y]
    }
}

/// The 16-key keypad snapshot, indexed by the CHIP-8 hexadecimal layout
/// `0x0`–`0xF`; `true` means the key is down.  The input thread replaces the
/// whole snapshot at once, so the core never observes a torn read.
#[derive(Copy, Clone)]
pub struct Keyboard {
    pub state: [bool; 16],
}

impl Keyboard {
    /// A keyboard with no key down.
    pub fn new() -> (r: Keyboard)
        ensures
            forall|k: int| 0 <= k < 16 ==> !(#[trigger] r.state@[k]),
    {
        Keyboard { state: [false; 16] }
    }

    /// Whether key `key` is currently down.
    pub fn is_down(&self, key: usize) -> (r: bool)
        requires
            key < 16,
        ensures
            r == self.state@[key as int],
    {
        self.state[key]
    }

    /// Replaces the whole snapshot, as the host's input poll does.
    pub fn set_keys(&mut self, keys: [bool; 16])
        ensures
            final(self).state@ == keys@,
    {
        self.state = keys;
    }
}

/// The host audio handle.  Sound generation is a no-op in this core; the
/// type exists so the shared-state bundle matches the host's expectations.
pub struct Audio {}

impl Audio {
    /// A fresh audio handle.
    pub fn new() -> (r: Audio) {
        Audio {}
    }
}

/// The bundle of host-shared resources handed to the interpreter core.
pub struct SharedState {
    pub vram: Vram,
    pub keys: Keyboard,
    pub audio: Audio,
}

impl SharedState {
    pub open spec fn wf(self) -> bool {
        self.vram.wf()
    }

    /// A fresh bundle: blank framebuffer, no key down.
    pub fn new() -> (r: SharedState)
        ensures
            r.wf(),
            forall|k: int| 0 <= k < PIXEL_COUNT ==> #[trigger] r.vram.pixels@[k] == 0,
            forall|k: int| 0 <= k < 16 ==> !(#[trigger] r.keys.state@[k]),
    {
        SharedState { vram: Vram::new(), keys: Keyboard::new(), audio: Audio::new() }
    }

    /// A snapshot copy of the bundle.
    pub fn clone(&self) -> (r: SharedState)
        ensures
            r.vram.pixels@ == self.vram.pixels@,
            r.keys.state@ == self.keys.state@,
    {
        let mut pixels: Vec<u8> = Vec::new();
        let mut k: usize = 0;
        let n = self.vram.pixels.len();
        while k < n
            invariant
                k <= n,
                n == self.vram.pixels@.len(),
                pixels@ == self.vram.pixels@.take(k as int),
            decreases n - k,
        {
            pixels.push(self.vram.pixels[k]);
            proof {
                assert(pixels@ =~= self.vram.pixels@.take(k + 1));
            }
            k += 1;
        }
        proof {
            assert(self.vram.pixels@.take(n as int) =~= self.vram.pixels@);
        }
        SharedState { vram: Vram { pixels }, keys: self.keys, audio: Audio::new() }
    }
}

} // verus!
