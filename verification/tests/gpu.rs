use gameboy::gpu::{OamObject, Screen};
use gameboy::mmu::MMU;

/// Video memory with tile 1 made of three striped rows (colours 1, 2, 3) and
/// tile 2 with a single pixel of colour 3 in its top left corner.
fn video() -> MMU {
    let mut mmu = MMU::new();
    mmu.write_byte(0xFF40, 0x91);
    mmu.write_byte(0xFF47, 0xE4);
    mmu.write_byte(0xFF48, 0xE4);
    mmu.write_byte(0xFF49, 0x1B);
    mmu.write_byte(0x8010, 0xFF);
    mmu.write_byte(0x8011, 0x00);
    mmu.write_byte(0x8012, 0x00);
    mmu.write_byte(0x8013, 0xFF);
    mmu.write_byte(0x8014, 0xFF);
    mmu.write_byte(0x8015, 0xFF);
    mmu.write_byte(0x8020, 0x80);
    mmu.write_byte(0x8021, 0x80);
    mmu.write_byte(0x9800, 0x01);
    mmu
}

fn put_object(mmu: &mut MMU, index: u16, y: u8, x: u8, tile: u8, flags: u8) {
    mmu.write_byte(0xFE00 + 4 * index, y);
    mmu.write_byte(0xFE01 + 4 * index, x);
    mmu.write_byte(0xFE02 + 4 * index, tile);
    mmu.write_byte(0xFE03 + 4 * index, flags);
}

#[test]
fn new_screen_is_blank_in_vertical_blank() {
    let screen = Screen::new();
    assert_eq!(screen.ppu_mode, 1);
    assert!(screen.obj_list.is_empty());
    assert!(!screen.stat_line);
    assert_eq!(screen.pixels.len(), 160 * 144);
    assert!(screen.pixels.iter().all(|p| *p == 0));
}

#[test]
fn modes_of_a_frame() {
    let mut screen = Screen::new();
    let mut mmu = MMU::new();
    for frame in 0..2 {
        let mut dots: u32 = 0;
        for line in 0..144u8 {
            assert_eq!(screen.step(&mut mmu), 80, "frame {} line {}", frame, line);
            assert_eq!(screen.ppu_mode, 2);
            assert_eq!(mmu.read_byte(0xFF44), line);
            assert!(!mmu.oam_enable);
            assert!(mmu.vram_enable);
            assert_eq!(screen.step(&mut mmu), 172);
            assert_eq!(screen.ppu_mode, 3);
            assert_eq!(mmu.read_byte(0xFF44), line);
            assert!(!mmu.oam_enable);
            assert!(!mmu.vram_enable);
            assert_eq!(screen.step(&mut mmu), 204);
            assert_eq!(screen.ppu_mode, 0);
            assert_eq!(mmu.read_byte(0xFF44), line);
            assert!(mmu.oam_enable);
            assert!(mmu.vram_enable);
            dots += 80 + 172 + 204;
        }
        for line in 144..154u8 {
            assert_eq!(screen.step(&mut mmu), 456);
            assert_eq!(screen.ppu_mode, 1);
            assert_eq!(mmu.read_byte(0xFF44), line);
            assert!(mmu.oam_enable);
            assert!(mmu.vram_enable);
            dots += 456;
        }
        assert_eq!(dots, 70224);
        assert_eq!(dots / 4, 17556);
    }
}

#[test]
fn vertical_blank_is_requested_once_a_frame() {
    let mut screen = Screen::new();
    let mut mmu = MMU::new();
    let mut requests = 0;
    let mut at_line = 0;
    for _ in 0..(144 * 3 + 10) {
        screen.step(&mut mmu);
        if mmu.read_byte(0xFF0F) & 0x01 != 0 {
            requests += 1;
            at_line = mmu.read_byte(0xFF44);
            mmu.write_byte(0xFF0F, 0x00);
        }
    }
    assert_eq!(requests, 1);
    assert_eq!(at_line, 144);
}

#[test]
fn status_register_shows_mode_and_coincidence() {
    let mut screen = Screen::new();
    let mut mmu = MMU::new();
    mmu.write_byte(0xFF45, 0x01);
    mmu.write_byte(0xFF41, 0x80);
    screen.step(&mut mmu);
    assert_eq!(mmu.read_byte(0xFF41), 0x82);
    screen.step(&mut mmu);
    assert_eq!(mmu.read_byte(0xFF41), 0x83);
    screen.step(&mut mmu);
    assert_eq!(mmu.read_byte(0xFF41), 0x80);
    screen.step(&mut mmu);
    assert_eq!(mmu.read_byte(0xFF44), 1);
    assert_eq!(mmu.read_byte(0xFF41), 0x86);
    assert_eq!(mmu.read_byte(0xFF0F), 0x00);
}

#[test]
fn status_interrupt_on_coincidence() {
    let mut screen = Screen::new();
    let mut mmu = MMU::new();
    mmu.write_byte(0xFF45, 0x02);
    mmu.write_byte(0xFF41, 0x40);
    let mut requests = 0;
    for _ in 0..(144 * 3 + 10) {
        screen.step(&mut mmu);
        if mmu.read_byte(0xFF0F) & 0x02 != 0 {
            requests += 1;
            assert_eq!(mmu.read_byte(0xFF44), 2);
            assert_eq!(screen.ppu_mode, 2);
            mmu.write_byte(0xFF0F, mmu.read_byte(0xFF0F) & !0x02);
        }
    }
    assert_eq!(requests, 1);
}

#[test]
fn status_interrupt_on_mode_entry() {
    let mut screen = Screen::new();
    let mut mmu = MMU::new();
    // horizontal blank only
    mmu.write_byte(0xFF41, 0x08);
    screen.step(&mut mmu);
    screen.step(&mut mmu);
    assert_eq!(mmu.read_byte(0xFF0F), 0x00);
    screen.step(&mut mmu);
    assert_eq!(screen.ppu_mode, 0);
    assert_eq!(mmu.read_byte(0xFF0F), 0x02);
    assert!(screen.stat_line);
    mmu.write_byte(0xFF0F, 0x00);
    screen.step(&mut mmu);
    assert!(!screen.stat_line);
    assert_eq!(mmu.read_byte(0xFF0F), 0x00);
}

#[test]
fn status_interrupt_needs_a_rising_edge() {
    let mut screen = Screen::new();
    let mut mmu = MMU::new();
    // horizontal blank and object scan: the level stays high from one to the other
    mmu.write_byte(0xFF41, 0x28);
    screen.step(&mut mmu);
    assert_eq!(screen.ppu_mode, 2);
    assert_eq!(mmu.read_byte(0xFF0F), 0x02);
    mmu.write_byte(0xFF0F, 0x00);
    screen.step(&mut mmu);
    assert_eq!(mmu.read_byte(0xFF0F), 0x00);
    screen.step(&mut mmu);
    assert_eq!(screen.ppu_mode, 0);
    assert_eq!(mmu.read_byte(0xFF0F), 0x02);
    mmu.write_byte(0xFF0F, 0x00);
    screen.step(&mut mmu);
    assert_eq!(screen.ppu_mode, 2);
    assert_eq!(mmu.read_byte(0xFF0F), 0x00);
}

#[test]
fn object_entry_is_read_as_four_bytes() {
    let mut mmu = MMU::new();
    put_object(&mut mmu, 3, 0x20, 0x30, 0x40, 0x50);
    let object = OamObject::new(0xFE0C, &mmu);
    assert_eq!(object.y, 0x20);
    assert_eq!(object.x, 0x30);
    assert_eq!(object.tile_index, 0x40);
    assert_eq!(object.flags, 0x50);
    assert!(object.on_line(0x10, 8));
    assert!(object.on_line(0x17, 8));
    assert!(!object.on_line(0x18, 8));
    assert!(object.on_line(0x1F, 16));
    assert!(!object.on_line(0x0F, 8));
    assert!(object.on_column(0x28));
    assert!(object.on_column(0x2F));
    assert!(!object.on_column(0x30));
    assert!(!object.on_column(0x27));
}

#[test]
fn objects_above_the_screen_edge() {
    let mut mmu = MMU::new();
    put_object(&mut mmu, 0, 10, 4, 0, 0);
    let object = OamObject::new(0xFE00, &mmu);
    // rows 6 and 7 show on the lines 0 and 1
    assert!(object.on_line(0, 8));
    assert!(object.on_line(1, 8));
    assert!(!object.on_line(2, 8));
    assert!(object.on_column(0));
    assert!(object.on_column(3));
    assert!(!object.on_column(4));
}

#[test]
fn scan_takes_ten_objects_in_order() {
    let mut screen = Screen::new();
    let mut mmu = MMU::new();
    for i in 0..12u16 {
        put_object(&mut mmu, i * 2, 16, 8 + i as u8, i as u8, 0);
        put_object(&mut mmu, i * 2 + 1, 100, 8, 0xEE, 0);
    }
    screen.scan_objects(0, &mmu);
    assert_eq!(screen.obj_list.len(), 10);
    for (i, object) in screen.obj_list.iter().enumerate() {
        assert_eq!(object.tile_index, i as u8);
    }
    screen.scan_objects(7, &mmu);
    assert_eq!(screen.obj_list.len(), 10);
    screen.scan_objects(8, &mmu);
    assert_eq!(screen.obj_list.len(), 0);
    screen.scan_objects(84, &mmu);
    assert_eq!(screen.obj_list.len(), 10);
    assert_eq!(screen.obj_list[0].tile_index, 0xEE);
}

#[test]
fn scan_uses_the_object_height() {
    let mut screen = Screen::new();
    let mut mmu = MMU::new();
    put_object(&mut mmu, 0, 16, 8, 0, 0);
    screen.scan_objects(8, &mmu);
    assert_eq!(screen.obj_list.len(), 0);
    assert_eq!(screen.get_obj_height(&mmu), 8);
    mmu.write_byte(0xFF40, 0x04);
    assert_eq!(screen.get_obj_height(&mmu), 16);
    screen.scan_objects(8, &mmu);
    assert_eq!(screen.obj_list.len(), 1);
    screen.scan_objects(15, &mmu);
    assert_eq!(screen.obj_list.len(), 1);
    screen.scan_objects(16, &mmu);
    assert_eq!(screen.obj_list.len(), 0);
}

#[test]
fn step_scans_when_mode_2_begins() {
    let mut screen = Screen::new();
    let mut mmu = MMU::new();
    put_object(&mut mmu, 5, 16, 8, 0x77, 0);
    screen.step(&mut mmu);
    assert_eq!(screen.ppu_mode, 2);
    assert_eq!(screen.obj_list.len(), 1);
    assert_eq!(screen.obj_list[0].tile_index, 0x77);
}

#[test]
fn background_rows_and_palette() {
    let mut screen = Screen::new();
    let mut mmu = video();
    for ly in 0..4u8 {
        screen.render_line(ly, &mmu);
    }
    for x in 0..160usize {
        let inside = x < 8;
        assert_eq!(screen.pixels[x], if inside { 1 } else { 0 });
        assert_eq!(screen.pixels[160 + x], if inside { 2 } else { 0 });
        assert_eq!(screen.pixels[320 + x], if inside { 3 } else { 0 });
        assert_eq!(screen.pixels[480 + x], 0);
    }
    mmu.write_byte(0xFF47, 0x1B);
    screen.render_line(0, &mmu);
    assert_eq!(screen.pixels[0], 2);
    assert_eq!(screen.pixels[8], 3);
    // the other lines stay as they were drawn
    assert_eq!(screen.pixels[160], 2);
}

#[test]
fn background_scrolls() {
    let screen = Screen::new();
    let mut mmu = video();
    mmu.write_byte(0xFF43, 0x04);
    assert_eq!(screen.get_bg_color(0, 0, &mmu), 1);
    assert_eq!(screen.get_bg_color(3, 0, &mmu), 1);
    assert_eq!(screen.get_bg_color(4, 0, &mmu), 0);
    mmu.write_byte(0xFF43, 0xFC);
    assert_eq!(screen.get_bg_color(0, 0, &mmu), 0);
    assert_eq!(screen.get_bg_color(4, 0, &mmu), 1);
    mmu.write_byte(0xFF43, 0x00);
    mmu.write_byte(0xFF42, 0x01);
    assert_eq!(screen.get_bg_color(0, 0, &mmu), 2);
    mmu.write_byte(0xFF42, 0xFF);
    assert_eq!(screen.get_bg_color(0, 1, &mmu), 1);
}

#[test]
fn background_can_be_switched_off() {
    let screen = Screen::new();
    let mut mmu = video();
    mmu.write_byte(0xFF40, 0x90);
    assert_eq!(screen.get_bg_color(0, 0, &mmu), 0);
    assert_eq!(screen.get_pixel(0, 0, &mmu), 0);
}

#[test]
fn tile_map_and_tile_data_areas() {
    let screen = Screen::new();
    let mut mmu = video();
    // second map
    mmu.write_byte(0xFF40, 0x99);
    assert_eq!(screen.get_bg_color(0, 0, &mmu), 0);
    mmu.write_byte(0x9C00, 0x01);
    assert_eq!(screen.get_bg_color(0, 0, &mmu), 1);
    // signed tile indices: tile 1 is at 0x9010, tile 0x80 at 0x8800
    mmu.write_byte(0xFF40, 0x81);
    assert_eq!(screen.get_bg_color(0, 0, &mmu), 0);
    mmu.write_byte(0x9010, 0x00);
    mmu.write_byte(0x9011, 0xFF);
    assert_eq!(screen.get_bg_color(0, 0, &mmu), 2);
    mmu.write_byte(0x9800, 0x80);
    assert_eq!(screen.get_bg_color(0, 0, &mmu), 0);
    mmu.write_byte(0x8800, 0xFF);
    mmu.write_byte(0x8801, 0xFF);
    assert_eq!(screen.get_bg_color(0, 0, &mmu), 3);
    assert_eq!(screen.get_map_color(0x9800, 7, 0, &mmu), 3);
    assert_eq!(screen.get_map_color(0x9800, 8, 0, &mmu), 0);
}

#[test]
fn window_covers_the_background() {
    let screen = Screen::new();
    let mut mmu = video();
    mmu.write_byte(0xFF40, 0xF1);
    mmu.write_byte(0xFF4A, 0x02);
    mmu.write_byte(0xFF4B, 87);
    mmu.write_byte(0x9C00, 0x01);
    // above the window the background shows
    assert_eq!(screen.get_bg_color(80, 0, &mmu), 0);
    assert_eq!(screen.get_bg_color(0, 0, &mmu), 1);
    // the window starts at column 80 of line 2 with the first row of its map
    assert_eq!(screen.get_bg_color(79, 2, &mmu), 0);
    assert_eq!(screen.get_bg_color(80, 2, &mmu), 1);
    assert_eq!(screen.get_bg_color(87, 2, &mmu), 1);
    assert_eq!(screen.get_bg_color(88, 2, &mmu), 0);
    assert_eq!(screen.get_bg_color(80, 3, &mmu), 2);
    // left of the window the background shows
    assert_eq!(screen.get_bg_color(0, 2, &mmu), 3);
}

#[test]
fn object_pixel_and_transparency() {
    let mut screen = Screen::new();
    let mut mmu = video();
    mmu.write_byte(0xFF40, 0x93);
    put_object(&mut mmu, 0, 16, 8 + 20, 2, 0x00);
    screen.scan_objects(0, &mmu);
    let pixel = screen.get_pixel_obj(20, 0, &mmu).unwrap();
    assert_eq!(pixel.color, 3);
    assert_eq!(pixel.palette, Some(false));
    assert!(!pixel.bg_priority);
    assert_eq!(screen.get_pixel_obj(21, 0, &mmu).unwrap().color, 0);
    assert!(screen.get_pixel_obj(19, 0, &mmu).is_none());
    assert!(screen.get_pixel_obj(28, 0, &mmu).is_none());
    assert_eq!(screen.get_pixel(20, 0, &mmu), 3);
    // colour 0 of the object lets the background through
    assert_eq!(screen.get_pixel(21, 0, &mmu), 0);
    // objects switched off
    mmu.write_byte(0xFF40, 0x91);
    assert!(screen.get_pixel_obj(20, 0, &mmu).is_none());
    assert_eq!(screen.get_pixel(20, 0, &mmu), 0);
}

#[test]
fn object_flips_and_palette() {
    let mut screen = Screen::new();
    let mut mmu = video();
    mmu.write_byte(0xFF40, 0x93);
    put_object(&mut mmu, 0, 16, 8, 2, 0x30);
    screen.scan_objects(0, &mmu);
    let object = screen.obj_list[0];
    assert_eq!(screen.get_obj_palette(&object), Some(true));
    assert!(!screen.get_obj_priority(&object));
    assert_eq!(screen.get_obj_color(&object, 7, 0, &mmu), 3);
    assert_eq!(screen.get_obj_color(&object, 0, 0, &mmu), 0);
    // second palette: colour 3 is shade 0
    assert_eq!(screen.get_pixel(7, 0, &mmu), 0);
    put_object(&mut mmu, 0, 16, 8, 2, 0x40);
    screen.scan_objects(7, &mmu);
    let object = screen.obj_list[0];
    assert_eq!(screen.get_obj_color(&object, 0, 7, &mmu), 3);
    assert_eq!(screen.get_obj_color(&object, 0, 0, &mmu), 0);
}

#[test]
fn tall_objects_ignore_the_low_bit_of_the_tile() {
    let mut screen = Screen::new();
    let mut mmu = video();
    mmu.write_byte(0xFF40, 0x97);
    put_object(&mut mmu, 0, 16, 8, 3, 0x00);
    // tile 2 is the upper half, tile 3 the lower half
    mmu.write_byte(0x8030, 0x40);
    mmu.write_byte(0x8031, 0x00);
    screen.scan_objects(0, &mmu);
    let object = screen.obj_list[0];
    assert_eq!(screen.get_obj_color(&object, 0, 0, &mmu), 3);
    assert_eq!(screen.get_obj_color(&object, 1, 8, &mmu), 1);
    assert_eq!(screen.get_obj_color(&object, 0, 8, &mmu), 0);
    // flipped vertically the last row comes first
    put_object(&mut mmu, 0, 16, 8, 3, 0x40);
    screen.scan_objects(0, &mmu);
    let object = screen.obj_list[0];
    assert_eq!(screen.get_obj_color(&object, 0, 15, &mmu), 3);
    assert_eq!(screen.get_obj_color(&object, 1, 7, &mmu), 1);
}

#[test]
fn background_priority() {
    let mut screen = Screen::new();
    let mut mmu = video();
    mmu.write_byte(0xFF40, 0x93);
    // over background colour 1
    put_object(&mut mmu, 0, 16, 8, 2, 0x80);
    // over background colour 0
    put_object(&mut mmu, 1, 16, 8 + 40, 2, 0x80);
    screen.scan_objects(0, &mmu);
    assert!(screen.get_pixel_obj(0, 0, &mmu).unwrap().bg_priority);
    assert_eq!(screen.get_pixel(0, 0, &mmu), 1);
    assert_eq!(screen.get_pixel(40, 0, &mmu), 3);
}

#[test]
fn smaller_x_wins_and_ties_go_to_the_earlier_entry() {
    let mut screen = Screen::new();
    let mut mmu = video();
    mmu.write_byte(0xFF40, 0x93);
    // a solid tile of colour 1
    for row in 0..8u16 {
        mmu.write_byte(0x8040 + row * 2, 0xFF);
        mmu.write_byte(0x8041 + row * 2, 0x00);
    }
    put_object(&mut mmu, 0, 16, 8 + 52, 4, 0x00);
    put_object(&mut mmu, 1, 16, 8 + 50, 2, 0x00);
    put_object(&mut mmu, 2, 16, 8 + 50, 4, 0x00);
    screen.scan_objects(0, &mmu);
    assert_eq!(screen.obj_list.len(), 3);
    // column 50: entries 1 and 2 tie on x, entry 1 shows
    assert_eq!(screen.get_pixel_obj(50, 0, &mmu).unwrap().color, 3);
    // column 52: entry 1 is in front of entry 0, and transparent there
    assert_eq!(screen.get_pixel_obj(52, 0, &mmu).unwrap().color, 0);
    // column 58: only entry 0 reaches
    assert_eq!(screen.get_pixel_obj(58, 0, &mmu).unwrap().color, 1);
}

#[test]
fn step_draws_the_line_when_mode_3_ends() {
    let mut screen = Screen::new();
    let mut mmu = video();
    mmu.write_byte(0xFF40, 0x93);
    put_object(&mut mmu, 0, 17, 8 + 100, 2, 0x00);
    screen.step(&mut mmu);
    screen.step(&mut mmu);
    assert_eq!(screen.ppu_mode, 3);
    assert!(screen.pixels.iter().all(|p| *p == 0));
    screen.step(&mut mmu);
    assert_eq!(screen.ppu_mode, 0);
    assert_eq!(screen.pixels[0], 1);
    assert_eq!(screen.pixels[7], 1);
    assert_eq!(screen.pixels[8], 0);
    assert!(screen.pixels[160..].iter().all(|p| *p == 0));
    for _ in 0..3 {
        screen.step(&mut mmu);
    }
    assert_eq!(mmu.read_byte(0xFF44), 1);
    assert_eq!(screen.pixels[160], 2);
    assert_eq!(screen.pixels[160 + 100], 3);
    assert_eq!(screen.pixels[160 + 101], 0);
    assert!(screen.pixels.iter().all(|p| *p <= 3));
}
