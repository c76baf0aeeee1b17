//! The memory bus: a flat 64 KiB address space with the write filtering and
//! the access gating that the picture unit drives.
use vstd::prelude::*;
use crate::bits::{hi, high_byte, lo, low_byte, make_word, word, wrap16};

verus! {

/// The first address of video memory.
pub const VRAM: u16 = 0x8000;

/// The last address of video memory.
pub const VRAM_END: u16 = 0x9FFF;

/// The first address of object memory.
pub const OAM: u16 = 0xFE00;

/// The last address of object memory.
pub const OAM_END: u16 = 0xFE9F;

/// The last address of the unusable block that follows object memory.
pub const UNUSABLE_END: u16 = 0xFEFF;

/// The serial data register.
pub const SERIAL_DATA: u16 = 0xFF01;

/// The serial control register.
pub const SERIAL_CONTROL: u16 = 0xFF02;

/// The divider register.
pub const DIV: u16 = 0xFF04;

/// The register of the current line.
pub const LY: u16 = 0xFF44;

/// The register that starts a transfer to object memory.
pub const DMA: u16 = 0xFF46;

/// The mathematical state of the bus.
pub struct Bus {
    /// The 65536 stored bytes.
    pub mem: Seq<u8>,
    /// Object memory is open to the processor.
    pub oam_enable: bool,
    /// Video memory is open to the processor.
    pub vram_enable: bool,
    /// The bytes handed to the serial sink so far, oldest first.
    pub serial: Seq<u8>,
    /// The divider register was written since the timer last looked.
    pub div_reset: bool,
}

/// The address is in video memory.
pub open spec fn in_vram(a: u16) -> bool {
    0x8000 <= a <= 0x9FFF
}

/// The address is in object memory.
pub open spec fn in_oam(a: u16) -> bool {
    0xFE00 <= a <= 0xFE9F
}

/// The address is in the unusable block.
pub open spec fn in_unusable(a: u16) -> bool {
    0xFEA0 <= a <= 0xFEFF
}

/// The address is in the cartridge area.
pub open spec fn in_rom(a: u16) -> bool {
    a < 0x8000
}

/// How many bytes of a cartridge image are mapped.
pub open spec fn rom_length(image: Seq<u8>) -> int {
    if image.len() < 0x8000 {
        image.len() as int
    } else {
        0x8000
    }
}

impl Bus {
    /// The bus holds the whole address space.
    pub open spec fn wf(self) -> bool {
        self.mem.len() == 65536
    }

    /// The byte stored at `a`, with no gating.
    pub open spec fn raw(self, a: u16) -> u8 {
        self.mem[a as int]
    }

    /// The bus with the byte at `a` replaced, with no filtering.
    pub open spec fn put(self, a: u16, v: u8) -> Bus {
        Bus { mem: self.mem.update(a as int, v), ..self }
    }

    /// What the processor reads at `a`.
    #[verifier::opaque]
    pub open spec fn read(self, a: u16) -> u8 {
        if in_vram(a) && !self.vram_enable {
            0xFF
        } else if in_oam(a) && !self.oam_enable {
            0xFF
        } else if in_unusable(a) {
            0xFF
        } else {
            self.mem[a as int]
        }
    }

    /// What the processor reads as a little-endian word at `a`.
    pub open spec fn read_word(self, a: u16) -> u16 {
        word(self.read(wrap16(a + 1)), self.read(a))
    }

    /// The bus after the 160 bytes that start at `page * 256` were copied
    /// over object memory.
    #[verifier::opaque]
    pub open spec fn dma(self, page: u8) -> Bus {
        Bus {
            mem: Seq::new(
                65536,
                |i: int|
                    if 0xFE00 <= i <= 0xFE9F {
                        self.mem[page * 256 + (i - 0xFE00)]
                    } else {
                        self.mem[i]
                    },
            ),
            ..self
        }
    }

    /// The serial side channel: a write to the data register while the control
    /// register holds 0x81 hands the byte to the sink and clears the control
    /// register.
    #[verifier::opaque]
    pub open spec fn serial_tap(self, a: u16, v: u8) -> Bus {
        if a == 0xFF01 && self.mem[0xFF02] == 0x81 {
            Bus { serial: self.serial.push(v), ..self.put(0xFF02, 0) }
        } else {
            self
        }
    }

    /// The store that follows the serial side channel.
    #[verifier::opaque]
    pub open spec fn filtered_store(self, a: u16, v: u8) -> Bus {
        if a == 0xFF04 {
            Bus { div_reset: true, ..self.put(a, 0) }
        } else if in_rom(a) {
            self
        } else if in_oam(a) && !self.oam_enable {
            self
        } else if in_vram(a) && !self.vram_enable {
            self
        } else if in_unusable(a) {
            self
        } else if a == 0xFF44 {
            self
        } else if a == 0xFF46 {
            self.put(a, v).dma(v)
        } else {
            self.put(a, v)
        }
    }

    /// The bus after the processor wrote `v` to `a`.
    pub open spec fn write(self, a: u16, v: u8) -> Bus {
        self.serial_tap(a, v).filtered_store(a, v)
    }

    /// The bus with a cartridge image laid over the start of the address
    /// space.
    #[verifier::opaque]
    pub open spec fn with_rom(self, image: Seq<u8>) -> Bus {
        Bus {
            mem: Seq::new(
                65536,
                |i: int|
                    if 0 <= i < rom_length(image) {
                        image[i]
                    } else {
                        self.mem[i]
                    },
            ),
            ..self
        }
    }

    /// The bus after the processor wrote the word `w` to `a`, low byte first.
    pub open spec fn write_word(self, a: u16, w: u16) -> Bus {
        self.write(a, lo(w)).write(wrap16(a + 1), hi(w))
    }
}

/// Outside the unusable block, and outside a region while it is closed, the
/// processor reads the stored byte.
pub proof fn lemma_read_stored(b: Bus, a: u16)
    requires
        !in_unusable(a),
        !in_vram(a) || b.vram_enable,
        !in_oam(a) || b.oam_enable,
    ensures
        b.read(a) == b.raw(a),
{
    reveal(Bus::read);
}

/// A cartridge image is mapped from address 0 on; the rest of the bus stays
/// as it was.
pub proof fn lemma_rom_loaded(b: Bus, image: Seq<u8>, a: u16)
    requires
        b.wf(),
    ensures
        b.with_rom(image).wf(),
        a < rom_length(image) ==> b.with_rom(image).raw(a) == image[a as int],
        a >= rom_length(image) ==> b.with_rom(image).raw(a) == b.raw(a),
        a < rom_length(image) ==> b.with_rom(image).read(a) == image[a as int],
        b.with_rom(image).oam_enable == b.oam_enable,
        b.with_rom(image).vram_enable == b.vram_enable,
        b.with_rom(image).serial == b.serial,
        b.with_rom(image).div_reset == b.div_reset,
{
    reveal(Bus::with_rom);
    reveal(Bus::read);
}

/// Every write keeps the bus well formed.
pub proof fn lemma_write_wf(b: Bus, a: u16, v: u8)
    requires
        b.wf(),
    ensures
        b.write(a, v).wf(),
        b.write(a, v).oam_enable == b.oam_enable,
        b.write(a, v).vram_enable == b.vram_enable,
{
    reveal(Bus::read);
    reveal(Bus::dma);
    reveal(Bus::serial_tap);
    reveal(Bus::filtered_store);
}

/// The cartridge area cannot be written: whatever is written, and wherever,
/// each byte below 0x8000 stays as it was. In particular a read that follows a
/// write to such an address returns the byte that was there before.
pub proof fn lemma_rom_immutable(b: Bus, a: u16, v: u8, r: u16)
    requires
        b.wf(),
        r < 0x8000,
    ensures
        b.write(a, v).read(r) == b.read(r),
        b.write(a, v).raw(r) == b.raw(r),
{
    reveal(Bus::read);
    reveal(Bus::dma);
    reveal(Bus::serial_tap);
    reveal(Bus::filtered_store);
}

/// Outside the cartridge area, the gated regions, the unusable block and the
/// registers with a side effect, a read returns the byte last written.
pub proof fn lemma_write_then_read(b: Bus, a: u16, v: u8)
    requires
        b.wf(),
        a >= 0x8000,
        !in_vram(a) || b.vram_enable,
        !in_oam(a) || b.oam_enable,
        !in_unusable(a),
        a != 0xFF04,
        a != 0xFF44,
        a != 0xFF46,
    ensures
        b.write(a, v).read(a) == v,
{
    reveal(Bus::read);
    reveal(Bus::dma);
    reveal(Bus::serial_tap);
    reveal(Bus::filtered_store);
}

/// The bus: the memory, the two gates of the picture unit, the bytes sent to
/// the serial sink and not yet taken, and the mark of a write to the divider.
pub struct MMU {
    pub memory: [u8; 65536],
    pub oam_enable: bool,
    pub vram_enable: bool,
    pub serial: Vec<u8>,
    pub div_reset: bool,
}

impl View for MMU {
    type V = Bus;

    open spec fn view(&self) -> Bus {
        Bus {
            mem: self.memory@,
            oam_enable: self.oam_enable,
            vram_enable: self.vram_enable,
            serial: self.serial@,
            div_reset: self.div_reset,
        }
    }
}

impl MMU {
    /// A bus with blank memory and both gates open.
    pub fn new() -> (m: MMU)
        ensures
            m@.wf(),
            forall|i: int| 0 <= i < 65536 ==> m@.mem[i] == 0,
            m@.oam_enable,
            m@.vram_enable,
            m@.serial == Seq::<u8>::empty(),
            !m@.div_reset,
            forall|a: u16| !in_unusable(a) ==> #[trigger] m@.read(a) == 0,
    {
        proof {
            reveal(Bus::read);
        }
        MMU {
            memory: [0u8; 65536],
            oam_enable: true,
            vram_enable: true,
            serial: Vec::new(),
            div_reset: false,
        }
    }

    /// The stored byte, as the hardware sees it.
    pub fn load(&self, address: u16) -> (v: u8)
        ensures
            v == self@.raw(address),
    {
        self.memory[address as usize]
    }

    /// A store by the hardware: no filter, no side effect.
    pub fn store(&mut self, address: u16, value: u8)
        ensures
            final(self)@ == old(self)@.put(address, value),
            final(self)@.wf(),
    {
        self.memory[address as usize] = value;
    }

    /// Reads a byte as the processor does: a closed region and the unusable
    /// block read 0xFF.
    pub fn read_byte(&self, address: u16) -> (v: u8)
        ensures
            v == self@.read(address),
    {
        proof {
            reveal(Bus::read);
        }
        if address >= VRAM && address <= VRAM_END && !self.vram_enable {
            0xFF
        } else if address >= OAM && address <= OAM_END && !self.oam_enable {
            0xFF
        } else if address > OAM_END && address <= UNUSABLE_END {
            0xFF
        } else {
            self.memory[address as usize]
        }
    }

    /// Reads a little-endian word as the processor does.
    pub fn read_word(&self, address: u16) -> (w: u16)
        ensures
            w == self@.read_word(address),
    {
        let low_byte: u8 = self.read_byte(address);
        let high_byte: u8 = self.read_byte(address.wrapping_add(1));
        make_word(high_byte, low_byte)
    }

    /// Copies the 160 bytes that start at `page * 256` over object memory.
    fn dma_transfer(&mut self, page: u8)
        ensures
            final(self)@ == old(self)@.dma(page),
    {
        proof {
            reveal(Bus::dma);
        }
        let source: usize = (page as usize) * 256;
        let ghost before = self@;
        let mut i: usize = 0;
        while i < 160
            invariant
                i <= 160,
                source == page * 256,
                before == old(self)@,
                self.oam_enable == before.oam_enable,
                self.vram_enable == before.vram_enable,
                self.serial@ == before.serial,
                self.div_reset == before.div_reset,
                forall|j: int|
                    0 <= j < 65536 && !(0xFE00 <= j < 0xFE00 + i) ==> self.memory@[j]
                        == before.mem[j],
                forall|j: int|
                    0xFE00 <= j < 0xFE00 + i ==> self.memory@[j] == before.mem[page * 256 + (j
                        - 0xFE00)],
            decreases 160 - i,
        {
            let byte: u8 = self.memory[source + i];
            self.memory[0xFE00 + i] = byte;
            i = i + 1;
        }
        assert(self@.mem =~= before.dma(page).mem);
    }

    /// Writes a byte as the processor does. Writes to the cartridge area, to a
    /// closed region, to the unusable block and to the line register are
    /// dropped; a write to the divider stores 0; a write to the transfer
    /// register copies 160 bytes to object memory at once; a write to the
    /// serial data register while the control register holds 0x81 also sends
    /// the byte to the serial sink.
    pub fn write_byte(&mut self, address: u16, value: u8)
        ensures
            final(self)@ == old(self)@.write(address, value),
    {
        proof {
            reveal(Bus::serial_tap);
            reveal(Bus::filtered_store);
        }
        if address == SERIAL_DATA && self.memory[SERIAL_CONTROL as usize] == 0x81 {
            self.serial.push(value);
            self.memory[SERIAL_CONTROL as usize] = 0x00;
        }
        if address == DIV {
            self.memory[DIV as usize] = 0;
            self.div_reset = true;
            return ;
        }
        if address < VRAM {
            return ;
        }
        if address >= OAM && address <= OAM_END && !self.oam_enable {
            return ;
        }
        if address >= VRAM && address <= VRAM_END && !self.vram_enable {
            return ;
        }
        if address > OAM_END && address <= UNUSABLE_END {
            return ;
        }
        if address == LY {
            return ;
        }
        self.memory[address as usize] = value;
        if address == DMA {
            self.dma_transfer(value);
        }
    }

    /// Writes a little-endian word as the processor does, low byte first.
    pub fn write_word(&mut self, address: u16, value: u16)
        ensures
            final(self)@ == old(self)@.write_word(address, value),
    {
        let low: u8 = low_byte(value);
        let high: u8 = high_byte(value);
        self.write_byte(address, low);
        self.write_byte(address.wrapping_add(1), high);
    }

    /// Closes or opens object memory to the processor.
    pub fn set_oam_locked(&mut self, locked: bool)
        ensures
            final(self)@ == (Bus { oam_enable: !locked, ..old(self)@ }),
    {
        self.oam_enable = !locked;
    }

    /// Closes or opens video memory to the processor.
    pub fn set_vram_locked(&mut self, locked: bool)
        ensures
            final(self)@ == (Bus { vram_enable: !locked, ..old(self)@ }),
    {
        self.vram_enable = !locked;
    }

    /// Hands out the bytes that reached the serial sink and empties it.
    pub fn take_serial(&mut self) -> (out: Vec<u8>)
        ensures
            out@ == old(self)@.serial,
            final(self)@ == (Bus { serial: Seq::empty(), ..old(self)@ }),
    {
        let mut out: Vec<u8> = Vec::new();
        std::mem::swap(&mut out, &mut self.serial);
        out
    }

    /// Forgets that the divider register was written.
    pub fn clear_div_reset(&mut self)
        ensures
            final(self)@ == (Bus { div_reset: false, ..old(self)@ }),
    {
        self.div_reset = false;
    }

    /// Copies a cartridge image to the start of the address space. Only the
    /// first 32 KiB of a longer image are taken.
    pub fn read_rom(&mut self, image: &[u8])
        ensures
            final(self)@ == old(self)@.with_rom(image@),
    {
        proof {
            reveal(Bus::with_rom);
        }
        let n: usize = if image.len() < 0x8000 { image.len() } else { 0x8000 };
        let ghost before = self@;
        let mut i: usize = 0;
        while i < n
            invariant
                i <= n,
                n <= 0x8000,
                n <= image@.len(),
                n == rom_length(image@),
                before == old(self)@,
                self.oam_enable == before.oam_enable,
                self.vram_enable == before.vram_enable,
                self.serial@ == before.serial,
                self.div_reset == before.div_reset,
                forall|j: int| i <= j < 65536 ==> self.memory@[j] == before.mem[j],
                forall|j: int| 0 <= j < i ==> self.memory@[j] == image@[j],
            decreases n - i,
        {
            let byte: u8 = image[i];
            self.memory[i] = byte;
            i = i + 1;
        }
        assert(self@.mem =~= before.with_rom(image@).mem);
    }
}

} // verus!
