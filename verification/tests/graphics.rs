use n64_game::rdp::{
    virtual_to_physical, FixedVec2, RdpCommand, RdpCommandBuilder, COMMAND_SYNC_FULL, FORMAT_RGBA,
    OTHER_MODE_CYCLE_TYPE_FILL, SIZE_OF_PIXEL_16B,
};
use n64_game::vi::{
    in_vblank, init, RegisterWrite, VideoMode, VI_DRAM_ADDR, VI_H_WIDTH, VI_STATUS, VI_TIMING,
    VI_V_INTR, VI_X_SCALE, VI_Y_SCALE,
};

fn words(builder: &RdpCommandBuilder) -> Vec<u64> {
    builder.commands().iter().map(|c| c.0).collect()
}

fn point(x: i16, y: i16) -> FixedVec2 {
    FixedVec2 { x, y }
}

#[test]
fn new_builder_is_empty_and_clear_empties() {
    let mut b = RdpCommandBuilder::new();
    assert!(b.commands().is_empty());
    b.sync_full().sync_pipe();
    assert_eq!(b.commands().len(), 2);
    b.clear();
    assert!(b.commands().is_empty());
}

#[test]
fn sync_commands_are_bare_opcodes() {
    let mut b = RdpCommandBuilder::new();
    b.sync_full().sync_pipe().sync_tile();
    assert_eq!(
        words(&b),
        vec![0xE900_0000_0000_0000, 0xE700_0000_0000_0000, 0xE800_0000_0000_0000]
    );
    assert_eq!(b.commands()[0], RdpCommand(COMMAND_SYNC_FULL << 56));
}

#[test]
fn physical_address_is_the_low_29_bits() {
    assert_eq!(virtual_to_physical(0x8010_0000), 0x0010_0000);
    assert_eq!(virtual_to_physical(0xA012_3456), 0x0012_3456);
    assert_eq!(virtual_to_physical(0x1fff_ffff), 0x1fff_ffff);
    assert_eq!(virtual_to_physical(0), 0);
}

#[test]
fn set_color_image_word() {
    let mut b = RdpCommandBuilder::new();
    b.set_color_image(FORMAT_RGBA, SIZE_OF_PIXEL_16B, 320, 0x8010_0000);
    assert_eq!(words(&b), vec![0xFF10_013F_0010_0000]);
}

#[test]
fn set_texture_image_word() {
    let mut b = RdpCommandBuilder::new();
    b.set_texture_image(3, 1, 64, 0xA012_3456);
    assert_eq!(words(&b), vec![0xFD68_003F_0012_3456]);
}

#[test]
fn image_format_and_size_keep_their_low_bits_only() {
    let mut b = RdpCommandBuilder::new();
    b.set_color_image(0xff, 0xff, 1, 0);
    assert_eq!(words(&b), vec![0xFFF8_0000_0000_0000]);
}

#[test]
fn set_scissor_word() {
    let mut b = RdpCommandBuilder::new();
    b.set_scissor(point(0, 0), point(1280, 960));
    b.set_scissor(point(-4, 0), point(0, 0));
    assert_eq!(words(&b), vec![0xED00_0000_0050_03C0, 0xEDFF_C000_0000_0000]);
}

#[test]
fn set_other_modes_word() {
    let mut b = RdpCommandBuilder::new();
    b.set_other_modes(OTHER_MODE_CYCLE_TYPE_FILL);
    b.set_other_modes(u64::MAX);
    b.set_other_modes(0);
    assert_eq!(
        words(&b),
        vec![0xEF30_000F_0000_0000, 0xEFFF_FFFF_FFFF_FFFF, 0xEF00_000F_0000_0000]
    );
}

#[test]
fn set_fill_color_word() {
    let mut b = RdpCommandBuilder::new();
    b.set_fill_color(0xF801);
    assert_eq!(words(&b), vec![0xF700_0000_F801_F801]);
}

#[test]
fn set_combine_mode_word() {
    let mut b = RdpCommandBuilder::new();
    b.set_combine_mode(&[1, 2, 3, 4, 5, 6, 7, 8, 9, 10, 11, 12, 13, 14, 15, 16]);
    b.set_combine_mode(&[15, 0, 0, 0, 0, 0, 0, 0, 0, 0, 0, 0, 0, 0, 0, 7]);
    assert_eq!(words(&b), vec![0xFC11_38A6_792D_DBF8, 0xFCF0_0000_0000_0007]);
}

#[test]
fn set_tile_word() {
    let mut b = RdpCommandBuilder::new();
    b.set_tile(0, 2, 32, 0x100, 1, 1, 0, 5, 0, 1, 1, 5, 2);
    assert_eq!(words(&b), vec![0xF510_1100_0109_4352]);
}

#[test]
fn load_tile_word() {
    let mut b = RdpCommandBuilder::new();
    b.load_tile(point(0, 0), point(124, 124), 3);
    assert_eq!(words(&b), vec![0xF407_C07C_0300_0000]);
}

#[test]
fn fill_rectangle_word() {
    let mut b = RdpCommandBuilder::new();
    b.fill_rectangle(point(40, 80), point(400, 200));
    assert_eq!(words(&b), vec![0xF619_00C8_0002_8050]);
}

#[test]
fn texture_rectangle_takes_two_words() {
    let mut b = RdpCommandBuilder::new();
    b.texture_rectangle(point(40, 80), point(400, 200), 5, point(0, 0), point(32, 32));
    assert_eq!(words(&b), vec![0xE419_00C8_0002_8050, 0x0000_0000_0020_0020]);
}

#[test]
fn negative_texture_coordinate_carries_its_sign_upwards() {
    let mut b = RdpCommandBuilder::new();
    b.texture_rectangle(point(0, 0), point(0, 0), 0, point(0, -32), point(0, 0));
    assert_eq!(words(&b), vec![0xE400_0000_0000_0000, 0xFFFF_FFE0_0000_0000]);
}

#[test]
fn commands_keep_their_order() {
    let mut b = RdpCommandBuilder::new();
    b.set_fill_color(1).fill_rectangle(point(0, 0), point(4, 4)).sync_full();
    assert_eq!(
        words(&b),
        vec![0xF700_0000_0001_0001, 0xF600_4004_0000_0000, 0xE900_0000_0000_0000]
    );
}

fn values(writes: &[RegisterWrite]) -> Vec<usize> {
    writes.iter().map(|w| w.value).collect()
}

#[test]
fn ntsc_mode_register_values() {
    let mode = VideoMode::Ntsc { width: 320, height: 240 };
    assert_eq!(mode.width(), 320);
    assert_eq!(mode.height(), 240);
    let writes = init(mode, 0xA010_0000);
    assert_eq!(
        values(&writes),
        vec![
            0x0000_320E,
            0xA010_0000,
            320,
            2,
            0x03E5_2239,
            0x0000_020D,
            0x0000_0C15,
            0x0C15_0C15,
            0x006C_02EC,
            0x0025_01FF,
            0x000E_0204,
            512,
            1024
        ]
    );
    assert_eq!(writes[0].register, VI_STATUS);
    assert_eq!(writes[1].register, VI_DRAM_ADDR);
    assert_eq!(writes[2].register, VI_H_WIDTH);
    assert_eq!(writes[3].register, VI_V_INTR);
    assert_eq!(writes[4].register, VI_TIMING);
    assert_eq!(writes[11].register, VI_X_SCALE);
    assert_eq!(writes[12].register, VI_Y_SCALE);
    for k in 0..13 {
        assert_eq!(writes[k].register, 0xA440_0000 + 4 * k + if k >= 4 { 4 } else { 0 });
    }
}

#[test]
fn pal_mode_register_values() {
    let mode = VideoMode::Pal { width: 640, height: 576 };
    assert_eq!(mode.width(), 640);
    assert_eq!(mode.height(), 576);
    let writes = init(mode, 0x8020_0000);
    assert_eq!(
        values(&writes),
        vec![
            0x0000_320E,
            0x8020_0000,
            640,
            0x200,
            0x0404_233A,
            0x0000_0271,
            0x0015_0C69,
            0x0C6F_0C6E,
            0x0080_0300,
            0x005F_0239,
            0x0009_026B,
            1024,
            2457
        ]
    );
}

#[test]
fn widest_picture_still_scales() {
    let writes = init(VideoMode::Ntsc { width: 65535, height: 65535 }, 0);
    assert_eq!(writes[11].value, 104_856);
    assert_eq!(writes[12].value, 279_616);
}

#[test]
fn vertical_blank_is_the_first_two_half_lines() {
    assert!(in_vblank(0));
    assert!(in_vblank(1));
    assert!(!in_vblank(2));
    assert!(!in_vblank(524));
}
