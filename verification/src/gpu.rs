//! The picture unit: a state machine over the four modes of a scanline, the
//! choice of the objects of a line, and the composition of its pixels.
//!
//! A step ends the current mode and enters the next. On the lines 0 to 143
//! the modes follow each other as 2 (object scan), 3 (pixel transfer) and 0
//! (horizontal blank); the lines 144 to 153 are spent in mode 1 (vertical
//! blank). The objects of a line are chosen when mode 2 is entered, and the
//! line is drawn when mode 3 ends.
use vstd::prelude::*;
use crate::mmu::{Bus, MMU};

verus! {

/// The control register.
pub const LCDC: u16 = 0xFF40;

/// The status register.
pub const STAT: u16 = 0xFF41;

/// The vertical scroll of the background.
pub const SCY: u16 = 0xFF42;

/// The horizontal scroll of the background.
pub const SCX: u16 = 0xFF43;

/// The current line.
pub const LY: u16 = 0xFF44;

/// The line that the current line is compared with.
pub const LYC: u16 = 0xFF45;

/// The palette of the background and the window.
pub const BGP: u16 = 0xFF47;

/// The first palette of the objects.
pub const OBP0: u16 = 0xFF48;

/// The second palette of the objects.
pub const OBP1: u16 = 0xFF49;

/// The line on which the window begins.
pub const WY: u16 = 0xFF4A;

/// The column at which the window begins, plus 7.
pub const WX: u16 = 0xFF4B;

/// The register of the interrupt requests.
pub const INTERRUPT_FLAG: u16 = 0xFF0F;

/// An entry of object memory, as its four bytes. The vertical position is
/// stored with an offset of 16 and the horizontal one with an offset of 8.
#[derive(Clone, Copy, Debug)]
pub struct OamObject {
    pub y: u8,
    pub x: u8,
    pub tile_index: u8,
    pub flags: u8,
}

/// A pixel of an object before it is mixed with the background.
#[derive(Clone, Copy, Debug)]
pub struct Pixel {
    /// The colour index, 0 to 3; 0 is transparent.
    pub color: u8,
    /// The object palette: `Some(true)` for the second one.
    pub palette: Option<bool>,
    /// The background covers the object unless its colour is 0.
    pub bg_priority: bool,
}

/// The entry that starts at `address`.
pub open spec fn object_at(mem: Seq<u8>, address: int) -> OamObject {
    OamObject {
        y: mem[address % 65536],
        x: mem[(address + 1) % 65536],
        tile_index: mem[(address + 2) % 65536],
        flags: mem[(address + 3) % 65536],
    }
}

/// The height of the objects, which bit 2 of the control register chooses.
pub open spec fn object_height(mem: Seq<u8>) -> int {
    if mem[0xFF40] & 0x04 != 0 {
        16
    } else {
        8
    }
}

/// The object has a row on the line `ly`.
pub open spec fn covers_line(o: OamObject, ly: u8, height: int) -> bool {
    o.y <= ly + 16 < o.y + height
}

/// The object has a column at `x`.
pub open spec fn covers_column(o: OamObject, x: u8) -> bool {
    o.x <= x + 8 < o.x + 8
}

/// The objects chosen for the line `ly` among the first `n` entries of object
/// memory: in the order of the entries, those with a row on the line, ten at
/// most.
pub open spec fn scan(mem: Seq<u8>, ly: u8, n: nat) -> Seq<OamObject>
    decreases n,
{
    if n == 0 {
        Seq::empty()
    } else {
        let before = scan(mem, ly, (n - 1) as nat);
        let o = object_at(mem, 0xFE00 + 4 * (n - 1));
        if before.len() < 10 && covers_line(o, ly, object_height(mem)) {
            before.push(o)
        } else {
            before
        }
    }
}

/// The colour index that two bytes of tile data give to the pixel at `bit`.
pub open spec fn pixel_color(low: u8, high: u8, bit: u8) -> u8 {
    ((high >> bit) & 1) << 1 | ((low >> bit) & 1)
}

/// The shade that a palette gives to a colour index.
pub open spec fn shade(palette: u8, color: u8) -> u8 {
    (palette >> ((color * 2) as u8)) & 3
}

/// Where the data of the background tile `index` starts: bit 4 of the
/// control register chooses between unsigned indexing from 0x8000 and
/// signed indexing around 0x9000.
pub open spec fn tile_data(mem: Seq<u8>, index: u8) -> int {
    if mem[0xFF40] & 0x10 != 0 {
        0x8000 + index * 16
    } else if index < 128 {
        0x9000 + index * 16
    } else {
        0x8800 + (index - 128) * 16
    }
}

/// The colour index at the point (`px`, `py`) of the tile map at `map`.
#[verifier::opaque]
pub open spec fn map_color(mem: Seq<u8>, map: int, px: int, py: int) -> u8 {
    let index = mem[map + (py / 8) * 32 + px / 8];
    let row = tile_data(mem, index) + (py % 8) * 2;
    pixel_color(mem[row], mem[row + 1], (7 - px % 8) as u8)
}

/// The window is enabled and covers the point.
pub open spec fn in_window(mem: Seq<u8>, x: u8, ly: u8) -> bool {
    mem[0xFF40] & 0x20 != 0 && ly >= mem[0xFF4A] && x + 7 >= mem[0xFF4B]
}

/// The colour index of the background or the window at column `x` of the line
/// `ly`; 0 while the background is switched off.
pub open spec fn background_color(mem: Seq<u8>, x: u8, ly: u8) -> u8 {
    if mem[0xFF40] & 0x01 == 0 {
        0
    } else if in_window(mem, x, ly) {
        map_color(
            mem,
            if mem[0xFF40] & 0x40 != 0 {
                0x9C00
            } else {
                0x9800
            },
            x + 7 - mem[0xFF4B],
            ly - mem[0xFF4A],
        )
    } else {
        map_color(
            mem,
            if mem[0xFF40] & 0x08 != 0 {
                0x9C00
            } else {
                0x9800
            },
            (x + mem[0xFF43]) % 256,
            (ly + mem[0xFF42]) % 256,
        )
    }
}

/// The object that shows at column `x` of the line `ly` among the first `n`
/// chosen ones: of those with a pixel there, the one with the smallest
/// horizontal position, and of equals the earliest.
pub open spec fn front_object(
    objects: Seq<OamObject>,
    x: u8,
    ly: u8,
    height: int,
    n: nat,
) -> Option<OamObject>
    decreases n,
{
    if n == 0 {
        None
    } else {
        let before = front_object(objects, x, ly, height, (n - 1) as nat);
        let o = objects[n - 1];
        if covers_column(o, x) && covers_line(o, ly, height) && (before is None || o.x
            < before->0.x) {
            Some(o)
        } else {
            before
        }
    }
}

/// The colour index of the object at a point that it covers, with its flips
/// applied. With objects of height 16 the low bit of the tile index is
/// ignored.
pub open spec fn object_color(mem: Seq<u8>, o: OamObject, x: u8, ly: u8) -> u8 {
    let height = object_height(mem);
    let column = x + 8 - o.x;
    let row = ly + 16 - o.y;
    let shown_column = if o.flags & 0x20 != 0 {
        7 - column
    } else {
        column
    };
    let shown_row = if o.flags & 0x40 != 0 {
        height - 1 - row
    } else {
        row
    };
    let tile = if height == 16 {
        o.tile_index & 0xFE
    } else {
        o.tile_index
    };
    let address = 0x8000 + tile * 16 + shown_row * 2;
    pixel_color(mem[address], mem[address + 1], (7 - shown_column) as u8)
}

/// The pixel of the object that shows at a point, if objects are switched on
/// and one shows there.
pub open spec fn object_pixel(mem: Seq<u8>, objects: Seq<OamObject>, x: u8, ly: u8) -> Option<
    Pixel,
> {
    let front = front_object(objects, x, ly, object_height(mem), objects.len());
    if mem[0xFF40] & 0x02 != 0 && front is Some {
        Some(
            Pixel {
                color: object_color(mem, front->0, x, ly),
                palette: Some(front->0.flags & 0x10 != 0),
                bg_priority: front->0.flags & 0x80 != 0,
            },
        )
    } else {
        None
    }
}

/// The shade of the pixel at column `x` of the line `ly`. The object shows
/// unless its colour is 0, or it asks for the background to cover it and the
/// background colour is not 0.
pub open spec fn pixel_shade(mem: Seq<u8>, objects: Seq<OamObject>, x: u8, ly: u8) -> u8 {
    let background = background_color(mem, x, ly);
    match object_pixel(mem, objects, x, ly) {
        Some(p) => {
            if p.color == 0 || (p.bg_priority && background != 0) {
                shade(mem[0xFF47], background)
            } else if p.palette == Some(true) {
                shade(mem[0xFF49], p.color)
            } else {
                shade(mem[0xFF48], p.color)
            }
        },
        None => shade(mem[0xFF47], background),
    }
}

/// The picture after the line `ly` was drawn.
pub open spec fn rendered(pixels: Seq<u8>, mem: Seq<u8>, objects: Seq<OamObject>, ly: u8) -> Seq<
    u8,
> {
    Seq::new(
        23040,
        |i: int|
            if ly * 160 <= i < ly * 160 + 160 {
                pixel_shade(mem, objects, (i - ly * 160) as u8, ly)
            } else {
                pixels[i]
            },
    )
}

/// The mode that follows `mode` on the line `ly`.
pub open spec fn next_mode(mode: u8, ly: u8) -> u8 {
    if mode == 2 {
        3
    } else if mode == 3 {
        0
    } else if mode == 0 {
        if ly < 143 {
            2
        } else {
            1
        }
    } else {
        if 144 <= ly < 153 {
            1
        } else {
            2
        }
    }
}

/// The line on which the mode that follows `mode` runs.
pub open spec fn next_line(mode: u8, ly: u8) -> u8 {
    if mode == 0 {
        if ly < 143 {
            (ly + 1) as u8
        } else {
            144
        }
    } else if mode == 1 {
        if 144 <= ly < 153 {
            (ly + 1) as u8
        } else {
            0
        }
    } else {
        ly
    }
}

/// How many dots a mode lasts; a machine cycle is four dots. In mode 1 this
/// is the length of one line.
pub open spec fn mode_dots(mode: u8) -> u16 {
    if mode == 2 {
        80
    } else if mode == 3 {
        172
    } else if mode == 0 {
        204
    } else {
        456
    }
}

/// The status register with its three low bits set from the mode and the
/// comparison of the line with LYC.
pub open spec fn stat_value(stat: u8, mode: u8, coincidence: bool) -> u8 {
    (stat & 0xF8) | (if coincidence {
        0x04u8
    } else {
        0x00u8
    }) | mode
}

/// The level of the status interrupt: one of the four sources is selected in
/// the status register and holds.
pub open spec fn stat_condition(stat: u8, mode: u8, coincidence: bool) -> bool {
    (stat & 0x40 != 0 && coincidence) || (stat & 0x20 != 0 && mode == 2) || (stat & 0x10 != 0
        && mode == 1) || (stat & 0x08 != 0 && mode == 0)
}

/// The interrupt requests of a step: vertical blank when line 144 begins, and
/// the status interrupt when its level rises.
pub open spec fn step_requests(vblank: bool, level: bool, level_before: bool) -> u8 {
    (if vblank {
        0x01u8
    } else {
        0x00u8
    }) | (if level && !level_before {
        0x02u8
    } else {
        0x00u8
    })
}

/// The status register after a step that began in `mode`.
pub open spec fn step_stat(bus: Bus, mode: u8) -> u8 {
    let ly = next_line(mode, bus.raw(0xFF44));
    stat_value(bus.raw(0xFF41), next_mode(mode, bus.raw(0xFF44)), ly == bus.raw(0xFF45))
}

/// The level of the status interrupt after a step that began in `mode`.
pub open spec fn step_level(bus: Bus, mode: u8) -> bool {
    let ly = next_line(mode, bus.raw(0xFF44));
    stat_condition(step_stat(bus, mode), next_mode(mode, bus.raw(0xFF44)), ly == bus.raw(0xFF45))
}

/// The bus after a step that began in `mode` with the status interrupt at
/// `level_before`: the line, the status register and the requests are
/// stored, and the gates follow the new mode. Mode 2 closes object memory,
/// mode 3 closes object and video memory, modes 0 and 1 open both.
pub open spec fn step_bus(bus: Bus, mode: u8, level_before: bool) -> Bus {
    let entered = next_mode(mode, bus.raw(0xFF44));
    let requests = step_requests(entered == 1 && mode == 0, step_level(bus, mode), level_before);
    let stored = bus.put(0xFF44, next_line(mode, bus.raw(0xFF44))).put(
        0xFF41,
        step_stat(bus, mode),
    );
    Bus {
        oam_enable: entered == 0 || entered == 1,
        vram_enable: entered != 3,
        ..stored.put(0xFF0F, stored.raw(0xFF0F) | requests)
    }
}

/// A shade is 0 to 3.
pub proof fn lemma_shade_range(palette: u8, shift: u8)
    by (bit_vector)
    ensures
        (palette >> shift) & 3 <= 3,
{
}

/// A colour index is 0 to 3.
pub proof fn lemma_color_range(low: u8, high: u8, bit: u8)
    by (bit_vector)
    requires
        bit < 8,
    ensures
        ((high >> bit) & 1) << 1 | ((low >> bit) & 1) <= 3,
{
}

impl OamObject {
    /// Reads the entry that starts at `address`.
    pub fn new(address: u16, mmu: &MMU) -> (o: OamObject)
        ensures
            o == object_at(mmu@.mem, address as int),
    {
        OamObject {
            y: mmu.load(address),
            x: mmu.load(address.wrapping_add(1)),
            tile_index: mmu.load(address.wrapping_add(2)),
            flags: mmu.load(address.wrapping_add(3)),
        }
    }

    /// Tells whether the object has a row on the line `ly`.
    pub fn on_line(&self, ly: u8, height: u8) -> (r: bool)
        ensures
            r == covers_line(*self, ly, height as int),
    {
        let line: u16 = (ly as u16) + 16;
        (self.y as u16) <= line && line < (self.y as u16) + (height as u16)
    }

    /// Tells whether the object has a column at `x`.
    pub fn on_column(&self, x: u8) -> (r: bool)
        ensures
            r == covers_column(*self, x),
    {
        let column: u16 = (x as u16) + 8;
        (self.x as u16) <= column && column < (self.x as u16) + 8
    }
}

/// The picture unit.
pub struct Screen {
    /// The picture: 144 lines of 160 shades, each 0 to 3.
    pub pixels: [u8; 23040],
    /// The current mode, 0 to 3.
    pub ppu_mode: u8,
    /// The objects chosen for the current line.
    pub obj_list: Vec<OamObject>,
    /// The level of the status interrupt after the last step.
    pub stat_line: bool,
}

impl Screen {
    /// A blank picture, in vertical blank.
    pub fn new() -> (s: Screen)
        ensures
            s.ppu_mode == 1,
            s.obj_list@ == Seq::<OamObject>::empty(),
            !s.stat_line,
            forall|i: int| 0 <= i < 23040 ==> s.pixels@[i] == 0,
    {
        Screen { pixels: [0u8; 23040], ppu_mode: 1, obj_list: Vec::new(), stat_line: false }
    }

    /// The height of the objects: 8 or 16.
    pub fn get_obj_height(&self, mmu: &MMU) -> (h: u8)
        ensures
            h == object_height(mmu@.mem),
    {
        if mmu.load(LCDC) & 0x04 != 0 {
            16
        } else {
            8
        }
    }

    /// Chooses the objects of the line `ly`.
    pub fn scan_objects(&mut self, ly: u8, mmu: &MMU)
        ensures
            final(self).obj_list@ == scan(mmu@.mem, ly, 40),
            final(self).obj_list@.len() <= 10,
            final(self).pixels == old(self).pixels,
            final(self).ppu_mode == old(self).ppu_mode,
            final(self).stat_line == old(self).stat_line,
    {
        let height: u8 = self.get_obj_height(mmu);
        self.obj_list.clear();
        let mut i: u16 = 0;
        while i < 40
            invariant
                i <= 40,
                height == object_height(mmu@.mem),
                self.obj_list@ == scan(mmu@.mem, ly, i as nat),
                self.obj_list@.len() <= 10,
                self.pixels == old(self).pixels,
                self.ppu_mode == old(self).ppu_mode,
                self.stat_line == old(self).stat_line,
            decreases 40 - i,
        {
            let object: OamObject = OamObject::new(0xFE00 + 4 * i, mmu);
            if self.obj_list.len() < 10 && object.on_line(ly, height) {
                self.obj_list.push(object);
            }
            i = i + 1;
        }
    }

    /// The colour index of an object at a point that it covers.
    pub fn get_obj_color(&self, obj: &OamObject, x: u8, y: u8, mmu: &MMU) -> (color: u8)
        requires
            covers_column(*obj, x),
            covers_line(*obj, y, object_height(mmu@.mem)),
        ensures
            color == object_color(mmu@.mem, *obj, x, y),
            color <= 3,
    {
        let height: u8 = self.get_obj_height(mmu);
        let column: u8 = ((x as u16) + 8 - (obj.x as u16)) as u8;
        let row: u8 = ((y as u16) + 16 - (obj.y as u16)) as u8;
        let shown_column: u8 = if obj.flags & 0x20 != 0 {
            7 - column
        } else {
            column
        };
        let shown_row: u8 = if obj.flags & 0x40 != 0 {
            height - 1 - row
        } else {
            row
        };
        let tile: u8 = if height == 16 {
            obj.tile_index & 0xFE
        } else {
            obj.tile_index
        };
        let address: u16 = 0x8000 + (tile as u16) * 16 + (shown_row as u16) * 2;
        let low: u8 = mmu.load(address);
        let high: u8 = mmu.load(address + 1);
        let bit: u8 = 7 - shown_column;
        proof {
            lemma_color_range(low, high, bit);
        }
        ((high >> bit) & 1) << 1 | ((low >> bit) & 1)
    }

    /// The palette of an object: `Some(true)` for the second one.
    pub fn get_obj_palette(&self, obj: &OamObject) -> (palette: Option<bool>)
        ensures
            palette == Some(obj.flags & 0x10 != 0),
    {
        if obj.flags & 0x10 != 0 {
            Some(true)
        } else {
            Some(false)
        }
    }

    /// Tells whether the background covers the object.
    pub fn get_obj_priority(&self, obj: &OamObject) -> (behind: bool)
        ensures
            behind == (obj.flags & 0x80 != 0),
    {
        obj.flags & 0x80 != 0
    }

    /// The pixel of the object that shows at column `x` of the line `y`.
    pub fn get_pixel_obj(&self, x: u8, y: u8, mmu: &MMU) -> (pixel: Option<Pixel>)
        ensures
            pixel == object_pixel(mmu@.mem, self.obj_list@, x, y),
            pixel is Some ==> pixel->0.color <= 3,
    {
        if mmu.load(LCDC) & 0x02 == 0 {
            return None;
        }
        let height: u8 = self.get_obj_height(mmu);
        let mut front: Option<OamObject> = None;
        let mut i: usize = 0;
        while i < self.obj_list.len()
            invariant
                i <= self.obj_list@.len(),
                height == object_height(mmu@.mem),
                front == front_object(self.obj_list@, x, y, height as int, i as nat),
                front is Some ==> covers_column(front->0, x) && covers_line(
                    front->0,
                    y,
                    height as int,
                ),
            decreases self.obj_list@.len() - i,
        {
            let object: OamObject = self.obj_list[i];
            if object.on_column(x) && object.on_line(y, height) {
                let closer: bool = match front {
                    Some(best) => object.x < best.x,
                    None => true,
                };
                if closer {
                    front = Some(object);
                }
            }
            i = i + 1;
        }
        match front {
            Some(object) => Some(
                Pixel {
                    color: self.get_obj_color(&object, x, y, mmu),
                    palette: self.get_obj_palette(&object),
                    bg_priority: self.get_obj_priority(&object),
                },
            ),
            None => None,
        }
    }

    /// The colour index at a point of a tile map.
    pub fn get_map_color(&self, map: u16, px: u8, py: u8, mmu: &MMU) -> (color: u8)
        requires
            map == 0x9800 || map == 0x9C00,
        ensures
            color == map_color(mmu@.mem, map as int, px as int, py as int),
            color <= 3,
    {
        proof {
            reveal(map_color);
        }
        let index: u8 = mmu.load(map + ((py / 8) as u16) * 32 + ((px / 8) as u16));
        let data: u16 = if mmu.load(LCDC) & 0x10 != 0 {
            0x8000 + (index as u16) * 16
        } else if index < 128 {
            0x9000 + (index as u16) * 16
        } else {
            0x8800 + ((index - 128) as u16) * 16
        };
        let row: u16 = data + ((py % 8) as u16) * 2;
        let low: u8 = mmu.load(row);
        let high: u8 = mmu.load(row + 1);
        let bit: u8 = 7 - px % 8;
        proof {
            lemma_color_range(low, high, bit);
        }
        ((high >> bit) & 1) << 1 | ((low >> bit) & 1)
    }

    /// The colour index of the background or the window at a point.
    pub fn get_bg_color(&self, x: u8, y: u8, mmu: &MMU) -> (color: u8)
        requires
            x < 160,
        ensures
            color == background_color(mmu@.mem, x, y),
            color <= 3,
    {
        let control: u8 = mmu.load(LCDC);
        if control & 0x01 == 0 {
            return 0;
        }
        let wy: u8 = mmu.load(WY);
        let wx: u8 = mmu.load(WX);
        if control & 0x20 != 0 && y >= wy && (x as u16) + 7 >= (wx as u16) {
            let map: u16 = if control & 0x40 != 0 {
                0x9C00
            } else {
                0x9800
            };
            self.get_map_color(map, ((x as u16) + 7 - (wx as u16)) as u8, y - wy, mmu)
        } else {
            let map: u16 = if control & 0x08 != 0 {
                0x9C00
            } else {
                0x9800
            };
            self.get_map_color(
                map,
                x.wrapping_add(mmu.load(SCX)),
                y.wrapping_add(mmu.load(SCY)),
                mmu,
            )
        }
    }

    /// The shade of the pixel at column `x` of the line `y`.
    pub fn get_pixel(&self, x: u8, y: u8, mmu: &MMU) -> (r: u8)
        requires
            x < 160,
        ensures
            r == pixel_shade(mmu@.mem, self.obj_list@, x, y),
            r <= 3,
    {
        let background: u8 = self.get_bg_color(x, y, mmu);
        let mut palette: u8 = mmu.load(BGP);
        let mut color: u8 = background;
        match self.get_pixel_obj(x, y, mmu) {
            Some(p) => {
                if !(p.color == 0 || (p.bg_priority && background != 0)) {
                    let second: bool = match p.palette {
                        Some(b) => b,
                        None => false,
                    };
                    palette = if second {
                        mmu.load(OBP1)
                    } else {
                        mmu.load(OBP0)
                    };
                    color = p.color;
                }
            },
            None => {},
        }
        proof {
            lemma_shade_range(palette, (color * 2) as u8);
        }
        (palette >> (color * 2)) & 3
    }

    /// Draws the line `ly`.
    pub fn render_line(&mut self, ly: u8, mmu: &MMU)
        requires
            ly < 144,
        ensures
            final(self).pixels@ == rendered(old(self).pixels@, mmu@.mem, old(self).obj_list@, ly),
            forall|i: int| ly * 160 <= i < ly * 160 + 160 ==> final(self).pixels@[i] <= 3,
            final(self).obj_list == old(self).obj_list,
            final(self).ppu_mode == old(self).ppu_mode,
            final(self).stat_line == old(self).stat_line,
    {
        let base: usize = (ly as usize) * 160;
        let mut x: u8 = 0;
        while x < 160
            invariant
                x <= 160,
                ly < 144,
                base == ly * 160,
                self.obj_list == old(self).obj_list,
                self.ppu_mode == old(self).ppu_mode,
                self.stat_line == old(self).stat_line,
                forall|i: int|
                    0 <= i < 23040 && !(base <= i < base + x) ==> self.pixels@[i] == old(
                        self,
                    ).pixels@[i],
                forall|i: int|
                    base <= i < base + x ==> self.pixels@[i] == pixel_shade(
                        mmu@.mem,
                        self.obj_list@,
                        (i - base) as u8,
                        ly,
                    ),
                forall|i: int| base <= i < base + x ==> self.pixels@[i] <= 3,
            decreases 160 - x,
        {
            let value: u8 = self.get_pixel(x, ly, mmu);
            self.pixels[base + (x as usize)] = value;
            x = x + 1;
        }
        assert(self.pixels@ =~= rendered(old(self).pixels@, mmu@.mem, old(self).obj_list@, ly));
    }

    /// Ends the current mode and enters the next. Returns how many dots the
    /// entered mode lasts.
    pub fn step(&mut self, mmu: &mut MMU) -> (dots: u16)
        requires
            old(self).ppu_mode <= 3,
        ensures
            final(self).ppu_mode == next_mode(old(self).ppu_mode, old(mmu)@.raw(0xFF44)),
            final(self).stat_line == step_level(old(mmu)@, old(self).ppu_mode),
            final(mmu)@ == step_bus(old(mmu)@, old(self).ppu_mode, old(self).stat_line),
            final(self).obj_list@ == if final(self).ppu_mode == 2 {
                scan(
                    old(mmu)@.mem,
                    next_line(old(self).ppu_mode, old(mmu)@.raw(0xFF44)),
                    40,
                )
            } else {
                old(self).obj_list@
            },
            final(self).pixels@ == if old(self).ppu_mode == 3 && old(mmu)@.raw(0xFF44) < 144 {
                rendered(
                    old(self).pixels@,
                    old(mmu)@.mem,
                    old(self).obj_list@,
                    old(mmu)@.raw(0xFF44),
                )
            } else {
                old(self).pixels@
            },
            dots == mode_dots(final(self).ppu_mode),
            (forall|i: int| 0 <= i < 23040 ==> old(self).pixels@[i] <= 3) ==> (forall|i: int|
                0 <= i < 23040 ==> final(self).pixels@[i] <= 3),
    {
        let mode: u8 = self.ppu_mode;
        let ly: u8 = mmu.load(LY);
        let entered: u8 = if mode == 2 {
            3
        } else if mode == 3 {
            0
        } else if mode == 0 {
            if ly < 143 {
                2
            } else {
                1
            }
        } else {
            if ly >= 144 && ly < 153 {
                1
            } else {
                2
            }
        };
        let line: u8 = if mode == 0 {
            if ly < 143 {
                ly + 1
            } else {
                144
            }
        } else if mode == 1 {
            if ly >= 144 && ly < 153 {
                ly + 1
            } else {
                0
            }
        } else {
            ly
        };
        if mode == 3 && ly < 144 {
            self.render_line(ly, mmu);
        }
        if entered == 2 {
            self.scan_objects(line, mmu);
        }
        let coincidence: bool = line == mmu.load(LYC);
        let stat: u8 = (mmu.load(STAT) & 0xF8) | (if coincidence {
            0x04u8
        } else {
            0x00u8
        }) | entered;
        let level: bool = (stat & 0x40 != 0 && coincidence) || (stat & 0x20 != 0 && entered == 2)
            || (stat & 0x10 != 0 && entered == 1) || (stat & 0x08 != 0 && entered == 0);
        let requests: u8 = (if entered == 1 && mode == 0 {
            0x01u8
        } else {
            0x00u8
        }) | (if level && !self.stat_line {
            0x02u8
        } else {
            0x00u8
        });
        mmu.store(LY, line);
        mmu.store(STAT, stat);
        let flags: u8 = mmu.load(INTERRUPT_FLAG);
        mmu.store(INTERRUPT_FLAG, flags | requests);
        mmu.set_oam_locked(entered == 2 || entered == 3);
        mmu.set_vram_locked(entered == 3);
        self.ppu_mode = entered;
        self.stat_line = level;
        if entered == 2 {
            80
        } else if entered == 3 {
            172
        } else if entered == 0 {
            204
        } else {
            456
        }
    }
}

/// On a visible line the modes follow each other as 2, 3 and 0, and the line
/// stays the same through them. After mode 0 the next line begins in mode 2;
/// after the last visible line vertical blank begins instead. The three
/// modes last 456 dots together.
pub proof fn lemma_scanline_modes(ly: u8)
    requires
        ly < 144,
    ensures
        next_mode(2, ly) == 3,
        next_line(2, ly) == ly,
        next_mode(3, ly) == 0,
        next_line(3, ly) == ly,
        ly < 143 ==> next_mode(0, ly) == 2 && next_line(0, ly) == ly + 1,
        ly == 143 ==> next_mode(0, ly) == 1 && next_line(0, ly) == 144,
        mode_dots(2) + mode_dots(3) + mode_dots(0) == 456,
{
}

/// The mode and the line that a step leaves.
pub open spec fn in_frame(mode: u8, ly: u8) -> bool {
    ly <= 153 && mode <= 3 && ((mode == 1) == (ly >= 144))
}

/// The line stays within 0 to 153, and the mode is 1 on the lines 144 to 153
/// and on no other: a step keeps both, and from vertical blank the frame
/// starts again on line 0 in mode 2.
pub proof fn lemma_frame_invariant(mode: u8, ly: u8)
    requires
        in_frame(mode, ly),
    ensures
        in_frame(next_mode(mode, ly), next_line(mode, ly)),
        mode == 1 && ly == 153 ==> next_mode(mode, ly) == 2 && next_line(mode, ly) == 0,
        mode == 1 && ly < 153 ==> next_mode(mode, ly) == 1 && next_line(mode, ly) == ly + 1,
{
}

/// The gates follow the mode that a step enters: mode 2 closes object memory
/// and leaves video memory open, mode 3 closes both, modes 0 and 1 open
/// both. While a region is closed, the processor reads 0xFF there and its
/// writes are dropped.
pub proof fn lemma_step_gates(bus: Bus, mode: u8, level_before: bool, a: u16, v: u8)
    requires
        bus.wf(),
        mode <= 3,
    ensures
        ({
            let entered = next_mode(mode, bus.raw(0xFF44));
            let after = step_bus(bus, mode, level_before);
            &&& after.oam_enable == (entered == 0 || entered == 1)
            &&& after.vram_enable == (entered != 3)
            &&& 0xFE00 <= a <= 0xFE9F && !after.oam_enable ==> after.read(a) == 0xFF
                && after.write(a, v) == after
            &&& 0x8000 <= a <= 0x9FFF && !after.vram_enable ==> after.read(a) == 0xFF
                && after.write(a, v) == after
        }),
{
    reveal(Bus::read);
    reveal(Bus::serial_tap);
    reveal(Bus::filtered_store);
}

/// The vertical blank interrupt is requested by the step that begins line
/// 144, and by no other.
pub proof fn lemma_vblank_request(bus: Bus, mode: u8, level_before: bool)
    requires
        bus.wf(),
        in_frame(mode, bus.raw(0xFF44)),
    ensures
        ({
            let after = step_bus(bus, mode, level_before);
            &&& mode == 0 && bus.raw(0xFF44) == 143 ==> after.raw(0xFF0F) & 0x01 != 0
            &&& !(mode == 0 && bus.raw(0xFF44) == 143) ==> (after.raw(0xFF0F) & 0x01) == (bus.raw(
                0xFF0F,
            ) & 0x01)
        }),
{
    let flags = bus.raw(0xFF0F);
    assert((flags | 0x01u8) & 0x01 != 0 && (flags | 0x03u8) & 0x01 != 0 && (flags | 0x00u8) & 0x01
        == flags & 0x01 && (flags | 0x02u8) & 0x01 == flags & 0x01 && (0x01u8 | 0x00u8) == 0x01u8
        && (0x01u8 | 0x02u8) == 0x03u8 && (0x00u8 | 0x02u8) == 0x02u8 && (0x00u8 | 0x00u8)
        == 0x00u8) by (bit_vector);
}

/// At most ten objects are chosen for a line, each of them has a row on it,
/// and no more are chosen than entries were looked at.
pub proof fn lemma_scan_bounds(mem: Seq<u8>, ly: u8, n: nat)
    ensures
        scan(mem, ly, n).len() <= 10,
        scan(mem, ly, n).len() <= n,
        forall|k: int|
            0 <= k < scan(mem, ly, n).len() ==> covers_line(
                #[trigger] scan(mem, ly, n)[k],
                ly,
                object_height(mem),
            ),
    decreases n,
{
    if n > 0 {
        lemma_scan_bounds(mem, ly, (n - 1) as nat);
    }
}

/// The object has a pixel at column `x` of the line `ly`.
pub open spec fn covers(o: OamObject, x: u8, ly: u8, height: int) -> bool {
    covers_column(o, x) && covers_line(o, ly, height)
}

/// The object in front is one of the chosen objects with a pixel at the
/// point; no other such object lies further left, and none that lies as far
/// left comes before it. Where no object is in front, none has a pixel at
/// the point.
pub proof fn lemma_front_object(objects: Seq<OamObject>, x: u8, ly: u8, height: int, n: nat)
    requires
        n <= objects.len(),
    ensures
        match front_object(objects, x, ly, height, n) {
            Some(o) => exists|k: int|
                0 <= k < n && #[trigger] objects[k] == o && covers(o, x, ly, height) && (forall|
                    j: int,
                |
                    0 <= j < n && covers(#[trigger] objects[j], x, ly, height) ==> o.x
                        < objects[j].x || (o.x == objects[j].x && k <= j)),
            None => forall|j: int|
                0 <= j < n ==> !covers(#[trigger] objects[j], x, ly, height),
        },
    decreases n,
{
    if n > 0 {
        let m = (n - 1) as nat;
        lemma_front_object(objects, x, ly, height, m);
        let before = front_object(objects, x, ly, height, m);
        let last = objects[n - 1];
        match before {
            Some(o) => {
                let k = choose|k: int|
                    0 <= k < m && #[trigger] objects[k] == o && covers(o, x, ly, height) && (forall|
                        j: int,
                    |
                        0 <= j < m && covers(#[trigger] objects[j], x, ly, height) ==> o.x
                            < objects[j].x || (o.x == objects[j].x && k <= j));
                if covers(last, x, ly, height) && last.x < o.x {
                    assert(objects[n - 1] == last);
                } else {
                    assert(objects[k] == o);
                }
            },
            None => {
                if covers(last, x, ly, height) {
                    assert(objects[n - 1] == last);
                }
            },
        }
    }
}

} // verus!
