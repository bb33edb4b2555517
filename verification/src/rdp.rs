//! Encoder for the display processor's command words. Each builder method
//! appends the 64-bit word (or the two words) of one command; the fields of a
//! word are laid out as the spec function of that command says.
//!
//! Coordinates come in as 16-bit fixed-point numbers: the columns and rows of
//! a rectangle with two fractional bits, texture coordinates and their
//! steps with five.

use vstd::prelude::*;

verus! {

/// Conditional Color Write On Alpha Compare (Bit 0)
pub const OTHER_MODE_ALPHA_COMPARE_EN: u64 = 0x00_0000_0000_0001;

/// Use Random Noise In Alpha Compare, Otherwise Use Blend Alpha In Alpha Compare (Bit 1)
pub const OTHER_MODE_DITHER_ALPHA_EN: u64 = 0x00_0000_0000_0002;

/// Choose Between Primitive Z And Pixel Z (Bit 2)
pub const OTHER_MODE_Z_SOURCE_SEL: u64 = 0x00_0000_0000_0004;

/// If Not Force Blend, Allow Blend Enable - Use CVG Bits (Bit 3)
pub const OTHER_MODE_ANTIALIAS_EN: u64 = 0x00_0000_0000_0008;

/// Conditional Color Write Enable On Depth Comparison (Bit 4)
pub const OTHER_MODE_Z_COMPARE_EN: u64 = 0x00_0000_0000_0010;

/// Enable Writing Of Z If Color Write Enabled (Bit 5)
pub const OTHER_MODE_Z_UPDATE_EN: u64 = 0x00_0000_0000_0020;

/// Enable Color/CVG Read/Modify/Write Memory Access (Bit 6)
pub const OTHER_MODE_IMAGE_READ_EN: u64 = 0x00_0000_0000_0040;

/// Only Update Color On Coverage Overflow (Transparent Surfaces) (Bit 7)
pub const OTHER_MODE_COLOR_ON_CVG: u64 = 0x00_0000_0000_0080;

/// CVG Destination Clamp (Normal) (Bit 8..9)
pub const OTHER_MODE_CVG_DEST_CLAMP: u64 = 0x00_0000_0000_0000;

/// CVG Destination Wrap (WAS Assume Full CVG) (Bit 8..9)
pub const OTHER_MODE_CVG_DEST_WRAP: u64 = 0x00_0000_0000_0100;

/// CVG Destination Zap (Force To Full CVG) (Bit 8..9)
pub const OTHER_MODE_CVG_DEST_ZAP: u64 = 0x00_0000_0000_0200;

/// CVG Destination Save (Don't Overwrite Memory CVG) (Bit 8..9)
pub const OTHER_MODE_CVG_DEST_SAVE: u64 = 0x00_0000_0000_0300;

/// Z Mode Opaque (Bit 10..11)
pub const OTHER_MODE_Z_MODE_OPAQUE: u64 = 0x00_0000_0000_0000;

/// Z Mode Interpenetrating (Bit 10..11)
pub const OTHER_MODE_Z_MODE_INTERPENETRATING: u64 = 0x00_0000_0000_0400;

/// Z Mode Transparent (Bit 10..11)
pub const OTHER_MODE_Z_MODE_TRANSPARENT: u64 = 0x00_0000_0000_0800;

/// Z Mode Decal (Bit 10..11)
pub const OTHER_MODE_Z_MODE_DECAL: u64 = 0x00_0000_0000_0C00;

/// Use CVG Times Alpha For Pixel Alpha And Coverage (Bit 12)
pub const OTHER_MODE_CVG_TIMES_ALPHA: u64 = 0x00_0000_0000_1000;

/// Use CVG (Or CVG*Alpha) For Pixel Alpha (Bit 13)
pub const OTHER_MODE_ALPHA_CVG_SELECT: u64 = 0x00_0000_0000_2000;

/// Force Blend Enable (Bit 14)
pub const OTHER_MODE_FORCE_BLEND: u64 = 0x00_0000_0000_4000;

/// Blend Modeword, Multiply 2b Input Select 0, Cycle 1 (Bit 16..17)
pub const OTHER_MODE_B_M2B_1_0: u64 = 0x00_0000_0000_0000;

/// Blend Modeword, Multiply 2b Input Select 1, Cycle 1 (Bit 16..17)
pub const OTHER_MODE_B_M2B_1_1: u64 = 0x00_0000_0001_0000;

/// Blend Modeword, Multiply 2b Input Select 2, Cycle 1 (Bit 16..17)
pub const OTHER_MODE_B_M2B_1_2: u64 = 0x00_0000_0002_0000;

/// Blend Modeword, Multiply 2b Input Select 3, Cycle 1 (Bit 16..17)
pub const OTHER_MODE_B_M2B_1_3: u64 = 0x00_0000_0003_0000;

/// Blend Modeword, Multiply 2b Input Select 0, Cycle 0 (Bit 18..19)
pub const OTHER_MODE_B_M2B_0_0: u64 = 0x00_0000_0000_0000;

/// Blend Modeword, Multiply 2b Input Select 1, Cycle 0 (Bit 18..19)
pub const OTHER_MODE_B_M2B_0_1: u64 = 0x00_0000_0004_0000;

/// Blend Modeword, Multiply 2b Input Select 2, Cycle 0 (Bit 18..19)
pub const OTHER_MODE_B_M2B_0_2: u64 = 0x00_0000_0008_0000;

/// Blend Modeword, Multiply 2b Input Select 3, Cycle 0 (Bit 18..19)
pub const OTHER_MODE_B_M2B_0_3: u64 = 0x00_0000_000C_0000;

/// Blend Modeword, Multiply 2a Input Select 0, Cycle 1 (Bit 20..21)
pub const OTHER_MODE_B_M2A_1_0: u64 = 0x00_0000_0000_0000;

/// Blend Modeword, Multiply 2a Input Select 1, Cycle 1 (Bit 20..21)
pub const OTHER_MODE_B_M2A_1_1: u64 = 0x00_0000_0010_0000;

/// Blend Modeword, Multiply 2a Input Select 2, Cycle 1 (Bit 20..21)
pub const OTHER_MODE_B_M2A_1_2: u64 = 0x00_0000_0020_0000;

/// Blend Modeword, Multiply 2a Input Select 3, Cycle 1 (Bit 20..21)
pub const OTHER_MODE_B_M2A_1_3: u64 = 0x00_0000_0030_0000;

/// Blend Modeword, Multiply 2a Input Select 0, Cycle 0 (Bit 22..23)
pub const OTHER_MODE_B_M2A_0_0: u64 = 0x00_0000_0000_0000;

/// Blend Modeword, Multiply 2a Input Select 1, Cycle 0 (Bit 22..23)
pub const OTHER_MODE_B_M2A_0_1: u64 = 0x00_0000_0040_0000;

/// Blend Modeword, Multiply 2a Input Select 2, Cycle 0 (Bit 22..23)
pub const OTHER_MODE_B_M2A_0_2: u64 = 0x00_0000_0080_0000;

/// Blend Modeword, Multiply 2a Input Select 3, Cycle 0 (Bit 22..23)
pub const OTHER_MODE_B_M2A_0_3: u64 = 0x00_0000_00C0_0000;

/// Blend Modeword, Multiply 1b Input Select 0, Cycle 1 (Bit 24..25)
pub const OTHER_MODE_B_M1B_1_0: u64 = 0x00_0000_0000_0000;

/// Blend Modeword, Multiply 1b Input Select 1, Cycle 1 (Bit 24..25)
pub const OTHER_MODE_B_M1B_1_1: u64 = 0x00_0000_0100_0000;

/// Blend Modeword, Multiply 1b Input Select 2, Cycle 1 (Bit 24..25)
pub const OTHER_MODE_B_M1B_1_2: u64 = 0x00_0000_0200_0000;

/// Blend Modeword, Multiply 1b Input Select 3, Cycle 1 (Bit 24..25)
pub const OTHER_MODE_B_M1B_1_3: u64 = 0x00_0000_0300_0000;

/// Blend Modeword, Multiply 1b Input Select 0, Cycle 0 (Bit 26..27)
pub const OTHER_MODE_B_M1B_0_0: u64 = 0x00_0000_0000_0000;

/// Blend Modeword, Multiply 1b Input Select 1, Cycle 0 (Bit 26..27)
pub const OTHER_MODE_B_M1B_0_1: u64 = 0x00_0000_0400_0000;

/// Blend Modeword, Multiply 1b Input Select 2, Cycle 0 (Bit 26..27)
pub const OTHER_MODE_B_M1B_0_2: u64 = 0x00_0000_0800_0000;

/// Blend Modeword, Multiply 1b Input Select 3, Cycle 0 (Bit 26..27)
pub const OTHER_MODE_B_M1B_0_3: u64 = 0x00_0000_0C00_0000;

/// Blend Modeword, Multiply 1a Input Select 0, Cycle 1 (Bit 28..29)
pub const OTHER_MODE_B_M1A_1_0: u64 = 0x00_0000_0000_0000;

/// Blend Modeword, Multiply 1a Input Select 1, Cycle 1 (Bit 28..29)
pub const OTHER_MODE_B_M1A_1_1: u64 = 0x00_0000_1000_0000;

/// Blend Modeword, Multiply 1a Input Select 2, Cycle 1 (Bit 28..29)
pub const OTHER_MODE_B_M1A_1_2: u64 = 0x00_0000_2000_0000;

/// Blend Modeword, Multiply 1a Input Select 3, Cycle 1 (Bit 28..29)
pub const OTHER_MODE_B_M1A_1_3: u64 = 0x00_0000_3000_0000;

/// Blend Modeword, Multiply 1a Input Select 0, Cycle 0 (Bit 30..31)
pub const OTHER_MODE_B_M1A_0_0: u64 = 0x00_0000_0000_0000;

/// Blend Modeword, Multiply 1a Input Select 1, Cycle 0 (Bit 30..31)
pub const OTHER_MODE_B_M1A_0_1: u64 = 0x00_0000_4000_0000;

/// Blend Modeword, Multiply 1a Input Select 2, Cycle 0 (Bit 30..31)
pub const OTHER_MODE_B_M1A_0_2: u64 = 0x00_0000_8000_0000;

/// Blend Modeword, Multiply 1a Input Select 3, Cycle 0 (Bit 30..31)
pub const OTHER_MODE_B_M1A_0_3: u64 = 0x00_0000_C000_0000;

/// Alpha Dither Selection Pattern (Bit 36..37)
pub const OTHER_MODE_ALPHA_DITHER_SEL_PATTERN: u64 = 0x00_0000_0000_0000;

/// Alpha Dither Selection ~Pattern (Bit 36..37)
pub const OTHER_MODE_ALPHA_DITHER_SEL_PATTERNB: u64 = 0x00_0010_0000_0000;

/// Alpha Dither Selection Noise (Bit 36..37)
pub const OTHER_MODE_ALPHA_DITHER_SEL_NOISE: u64 = 0x00_0020_0000_0000;

/// Alpha Dither Selection No Dither (Bit 36..37)
pub const OTHER_MODE_ALPHA_DITHER_SEL_NO_DITHER: u64 = 0x00_0030_0000_0000;

/// RGB Dither Selection Magic Square Matrix (Preferred If Filtered) (Bit 38..39)
pub const OTHER_MODE_RGB_DITHER_SEL_MAGIC_SQUARE_MATRIX: u64 = 0x00_0000_0000_0000;

/// RGB Dither Selection Standard Bayer Matrix (Preferred If Not Filtered) (Bit 38..39)
pub const OTHER_MODE_RGB_DITHER_SEL_STANDARD_BAYER_MATRIX: u64 = 0x00_0040_0000_0000;

/// RGB Dither Selection Noise (As Before) (Bit 38..39)
pub const OTHER_MODE_RGB_DITHER_SEL_NOISE: u64 = 0x00_0080_0000_0000;

/// RGB Dither Selection No Dither (Bit 38..39)
pub const OTHER_MODE_RGB_DITHER_SEL_NO_DITHER: u64 = 0x00_00C0_0000_0000;

/// Enables Chroma Keying (Bit 40)
pub const OTHER_MODE_KEY_EN: u64 = 0x00_0100_0000_0000;

/// Color Convert Texel That Was The Ouput Of The Texture Filter On Cycle0, Used To Qualify BI_LERP_1 (Bit 41)
pub const OTHER_MODE_CONVERT_ONE: u64 = 0x00_0200_0000_0000;

/// 1=BI_LERP, 0=Color Convert Operation In Texture Filter. Used In Cycle 1 (Bit 42)
pub const OTHER_MODE_BI_LERP_1: u64 = 0x00_0400_0000_0000;

/// 1=BI_LERP, 0=Color Convert Operation In Texture Filter. Used In Cycle 0 (Bit 43)
pub const OTHER_MODE_BI_LERP_0: u64 = 0x00_0800_0000_0000;

/// Indicates Texture Filter Should Do A 2x2 Half Texel Interpolation, Primarily Used For MPEG Motion Compensation Processing (Bit 44)
pub const OTHER_MODE_MID_TEXEL: u64 = 0x00_1000_0000_0000;

/// Determines How Textures Are Sampled: 0=1x1 (Point Sample), 1=2x2. Note That Copy (Point Sample 4 Horizontally Adjacent Texels) Mode Is Indicated By CYCLE_TYPE (Bit 45)
pub const OTHER_MODE_SAMPLE_TYPE: u64 = 0x00_2000_0000_0000;

/// Type Of Texels In Table, 0=16b RGBA(5/5/5/1), 1=IA(8/8) (Bit 46)
pub const OTHER_MODE_TLUT_TYPE: u64 = 0x00_4000_0000_0000;

/// Enable Lookup Of Texel Values From TLUT. Meaningful If Texture Type Is Index, Tile Is In Low TMEM, TLUT Is In High TMEM, And Color Image Is RGB (Bit 47)
pub const OTHER_MODE_EN_TLUT: u64 = 0x00_8000_0000_0000;

/// Enable Texture Level Of Detail (LOD) (Bit 48)
pub const OTHER_MODE_TEX_LOD_EN: u64 = 0x01_0000_0000_0000;

/// Enable Sharpened Texture (Bit 49)
pub const OTHER_MODE_SHARPEN_TEX_EN: u64 = 0x02_0000_0000_0000;

/// Enable Detail Texture (Bit 50)
pub const OTHER_MODE_DETAIL_TEX_EN: u64 = 0x04_0000_0000_0000;

/// Enable Perspective Correction On Texture (Bit 51)
pub const OTHER_MODE_PERSP_TEX_EN: u64 = 0x08_0000_0000_0000;

/// Display Pipeline Cycle Control Mode 1 Cycle (Bit 52..53)
pub const OTHER_MODE_CYCLE_TYPE_1_CYCLE: u64 = 0x00_0000_0000_0000;

/// Display Pipeline Cycle Control Mode 2 Cycle (Bit 52..53)
pub const OTHER_MODE_CYCLE_TYPE_2_CYCLE: u64 = 0x10_0000_0000_0000;

/// Display Pipeline Cycle Control Mode Copy (Bit 52..53)
pub const OTHER_MODE_CYCLE_TYPE_COPY: u64 = 0x20_0000_0000_0000;

/// Display Pipeline Cycle Control Mode Fill (Bit 52..53)
pub const OTHER_MODE_CYCLE_TYPE_FILL: u64 = 0x30_0000_0000_0000;

/// Force Primitive To Be Written To Frame Buffer Before Read Of Following.
pub const OTHER_MODE_ATOMIC_PRIM: u64 = 0x80_0000_0000_0000;

/// Size Of Pixel/Texel Color Element 4B (Bit 51..52)
pub const SIZE_OF_PIXEL_4B: u8 = 0;

/// Size Of Pixel/Texel Color Element 8B (Bit 51..52)
pub const SIZE_OF_PIXEL_8B: u8 = 1;

/// Size Of Pixel/Texel Color Element 16B (Bit 51..52)
pub const SIZE_OF_PIXEL_16B: u8 = 2;

/// Size Of Pixel/Texel Color Element 32B (Bit 51..52)
pub const SIZE_OF_PIXEL_32B: u8 = 3;

/// Image Data Format RGBA (Bit 53..55)
pub const FORMAT_RGBA: u8 = 0;

/// Image Data Format YUV (Bit 53..55)
pub const FORMAT_YUV: u8 = 1;

/// Image Data Format COLOR_INDX (Bit 53..55)
pub const FORMAT_COLOR_INDX: u8 = 2;

/// Image Data Format IA (Bit 53..55)
pub const FORMAT_IA: u8 = 3;

/// Image Data Format I (Bit 53..55)
pub const FORMAT_I: u8 = 4;

/// Opcode of Set_Color_Image.
pub const COMMAND_SET_COLOR_IMAGE: u64 = 0xff;

/// Opcode of Set_Scissor.
pub const COMMAND_SET_SCISSOR: u64 = 0xed;

/// Opcode of Set_Other_Modes.
pub const COMMAND_SET_OTHER_MODE: u64 = 0xef;

/// Opcode of Set_Fill_Color.
pub const COMMAND_SET_FILL_COLOR: u64 = 0xf7;

/// Opcode of Set_Combine_Mode.
pub const COMMAND_SET_COMBINE_MODE: u64 = 0xfc;

/// Opcode of Set_Texture_Image.
pub const COMMAND_SET_TEXTURE_IMAGE: u64 = 0xfd;

/// Opcode of Set_Tile.
pub const COMMAND_SET_TILE: u64 = 0xf5;

/// Opcode of Load_Tile.
pub const COMMAND_LOAD_TILE: u64 = 0xf4;

/// Opcode of Fill_Rectangle.
pub const COMMAND_FILL_RECTANGLE: u64 = 0xf6;

/// Opcode of Texture_Rectangle.
pub const COMMAND_TEXTURE_RECTANGLE: u64 = 0xe4;

/// Opcode of Sync_Full.
pub const COMMAND_SYNC_FULL: u64 = 0xe9;

/// Opcode of Sync_Pipe.
pub const COMMAND_SYNC_PIPE: u64 = 0xe7;

/// Opcode of Sync_Tile.
pub const COMMAND_SYNC_TILE: u64 = 0xe8;

/// One 64-bit word of the display processor's command stream.
#[derive(Clone, Copy, Debug, PartialEq, Eq, Structural)]
pub struct RdpCommand(pub u64);

/// A point or a step in 16-bit fixed-point coordinates.
#[derive(Clone, Copy, Debug, PartialEq, Eq, Structural)]
pub struct FixedVec2 {
    pub x: i16,
    pub y: i16,
}

/// The physical address behind a virtual address of the directly mapped
/// segments: its low 29 bits.
pub open spec fn physical(address: usize) -> usize {
    address & 0x1fff_ffff
}

/// The 12-bit field of a coordinate with two fractional bits.
pub open spec fn fixpoint_10_2(raw: i16) -> u64 {
    (raw & 0xfff) as u64
}

/// A signed coordinate with five fractional bits, as it is put into a word:
/// extended with its sign to 64 bits.
pub open spec fn fixpoint_s_10_5(raw: i16) -> u64 {
    raw as u64
}

/// The word of a rectangle command: the opcode, then the lower right
/// corner, the tile and the upper left corner.
pub open spec fn rectangle_word(
    opcode: u64,
    top_left: FixedVec2,
    bottom_right: FixedVec2,
    tile_index: u8,
) -> u64 {
    (opcode << 56) | (fixpoint_10_2(bottom_right.x) << 44) | (fixpoint_10_2(bottom_right.y) << 32)
        | ((tile_index as u64) << 24) | (fixpoint_10_2(top_left.x) << 12) | fixpoint_10_2(
        top_left.y,
    )
}

/// The word of Set_Color_Image and of Set_Texture_Image: the opcode, the
/// image's format and pixel size, its width less one, and where it lies.
pub open spec fn image_word(opcode: u64, format: u8, size: u8, width: u16, image: usize) -> u64 {
    (opcode << 56) | (((format & 0b111) as u64) << 53) | (((size & 0b11) as u64) << 51) | (((width
        - 1) as u64) << 32) | (physical(image) as u64)
}

/// The word of Set_Scissor.
pub open spec fn scissor_word(top_left: FixedVec2, bottom_right: FixedVec2) -> u64 {
    (COMMAND_SET_SCISSOR << 56) | (fixpoint_10_2(top_left.x) << 44) | (fixpoint_10_2(top_left.y)
        << 32) | (fixpoint_10_2(bottom_right.x) << 12) | fixpoint_10_2(bottom_right.y)
}

/// The word of Set_Other_Modes: the low 56 bits of the flags under the
/// opcode, with bits 32 to 35 always set.
pub open spec fn other_modes_word(flags: u64) -> u64 {
    (COMMAND_SET_OTHER_MODE << 56) | (flags & 0x00ff_ffff_ffff_ffff) | 0x0000_000F_0000_0000
}

/// The word of Set_Fill_Color: the 16-bit colour twice, side by side.
pub open spec fn fill_color_word(color: u16) -> u64 {
    (COMMAND_SET_FILL_COLOR << 56) | ((color as u64) << 16) | (color as u64)
}

/// The word of Set_Combine_Mode: the sixteen selectors, first to last, from
/// bit 52 down.
pub open spec fn combine_mode_word(values: Seq<u8>) -> u64 {
    (COMMAND_SET_COMBINE_MODE << 56) | ((values[0] as u64) << 52) | ((values[1] as u64) << 47) | ((
    values[2] as u64) << 44) | ((values[3] as u64) << 41) | ((values[4] as u64) << 37) | ((
    values[5] as u64) << 32) | ((values[6] as u64) << 28) | ((values[7] as u64) << 24) | ((
    values[8] as u64) << 21) | ((values[9] as u64) << 18) | ((values[10] as u64) << 15) | ((
    values[11] as u64) << 12) | ((values[12] as u64) << 9) | ((values[13] as u64) << 6) | ((
    values[14] as u64) << 3) | (values[15] as u64)
}

/// The word of Set_Tile.
pub open spec fn tile_word(
    format: u8,
    size: u8,
    width: u16,
    texture_cache_start_address: u16,
    tile_index: u8,
    clamp_t: u8,
    mirror_t: u8,
    mask_t: u8,
    shift_t: u8,
    clamp_s: u8,
    mirror_s: u8,
    mask_s: u8,
    shift_s: u8,
) -> u64 {
    (COMMAND_SET_TILE << 56) | (((format & 0b111) as u64) << 53) | (((size & 0b11) as u64) << 51)
        | (((width >> 2) as u64) << 41) | ((texture_cache_start_address as u64) << 32) | ((
    tile_index as u64) << 24) | ((clamp_t as u64) << 19) | ((mirror_t as u64) << 18) | ((
    mask_t as u64) << 14) | ((shift_t as u64) << 10) | ((clamp_s as u64) << 9) | ((
    mirror_s as u64) << 8) | ((mask_s as u64) << 4) | (shift_s as u64)
}

/// The second word of Texture_Rectangle: the texture coordinate of the
/// upper left corner and the step per pixel.
pub open spec fn texture_step_word(st_top_left: FixedVec2, d_xy_d_st: FixedVec2) -> u64 {
    (fixpoint_s_10_5(st_top_left.x) << 48) | (fixpoint_s_10_5(st_top_left.y) << 32) | (
    fixpoint_s_10_5(d_xy_d_st.x) << 16) | fixpoint_s_10_5(d_xy_d_st.y)
}

/// The physical address behind `address`.
pub fn virtual_to_physical(address: usize) -> (low: usize)
    ensures
        low == physical(address),
{
    address & 0x1fff_ffff
}

fn to_fixpoint_10_2(raw: i16) -> (field: u64)
    ensures
        field == fixpoint_10_2(raw),
{
    #[verifier::truncate]
    ((raw & 0xfff) as u64)
}

fn to_fixpoint_s_10_5(raw: i16) -> (field: u64)
    ensures
        field == fixpoint_s_10_5(raw),
{
    #[verifier::truncate]
    (raw as u64)
}

/// Collects command words in the order in which they are to be run.
pub struct RdpCommandBuilder {
    commands: Vec<RdpCommand>,
}

impl View for RdpCommandBuilder {
    type V = Seq<u64>;

    closed spec fn view(&self) -> Seq<u64> {
        Seq::new(self.commands@.len(), |k: int| self.commands@[k].0)
    }
}

impl RdpCommandBuilder {
    /// A builder without commands.
    pub fn new() -> (builder: RdpCommandBuilder)
        ensures
            builder@ == Seq::<u64>::empty(),
    {
        let builder = RdpCommandBuilder { commands: Vec::with_capacity(4096) };
        assert(builder@ =~= Seq::empty());
        builder
    }

    /// Forgets every command.
    pub fn clear(&mut self)
        ensures
            final(self)@ == Seq::<u64>::empty(),
    {
        self.commands.clear();
        assert(self@ =~= Seq::empty());
    }

    /// The words collected so far.
    pub fn commands(&self) -> (words: &[RdpCommand])
        ensures
            words@.len() == self@.len(),
            forall|k: int| 0 <= k < words@.len() ==> (#[trigger] words@[k]).0 == self@[k],
    {
        self.commands.as_slice()
    }

    fn push(&mut self, word: u64)
        ensures
            final(self)@ == old(self)@.push(word),
    {
        self.commands.push(RdpCommand(word));
        assert(self@ =~= old(self)@.push(word));
    }

    /// Set_Color_Image: the image that is drawn into, `width` pixels wide,
    /// at the virtual address `image`.
    pub fn set_color_image(&mut self, format: u8, size: u8, width: u16, image: usize) -> (next:
        &mut RdpCommandBuilder)
        requires
            width >= 1,
        ensures
            next@ == old(self)@.push(image_word(COMMAND_SET_COLOR_IMAGE, format, size, width, image)),
            *final(self) == *final(next),
    {
        self.push(
            (COMMAND_SET_COLOR_IMAGE << 56) | (((format & 0b111) as u64) << 53) | (((size
                & 0b11) as u64) << 51) | (((width - 1) as u64) << 32) | (virtual_to_physical(
                image,
            ) as u64),
        );
        self
    }

    /// Set_Scissor: nothing is drawn outside the rectangle between the two
    /// corners.
    pub fn set_scissor(&mut self, top_left: FixedVec2, bottom_right: FixedVec2) -> (next:
        &mut RdpCommandBuilder)
        ensures
            next@ == old(self)@.push(scissor_word(top_left, bottom_right)),
            *final(self) == *final(next),
    {
        self.push(
            (COMMAND_SET_SCISSOR << 56) | (to_fixpoint_10_2(top_left.x) << 44) | (to_fixpoint_10_2(
                top_left.y,
            ) << 32) | (to_fixpoint_10_2(bottom_right.x) << 12) | to_fixpoint_10_2(bottom_right.y),
        );
        self
    }

    /// Set_Other_Modes, with the flags or-ed together from the
    /// `OTHER_MODE_` constants.
    pub fn set_other_modes(&mut self, flags: u64) -> (next: &mut RdpCommandBuilder)
        ensures
            next@ == old(self)@.push(other_modes_word(flags)),
            *final(self) == *final(next),
    {
        self.push(
            (COMMAND_SET_OTHER_MODE << 56) | (flags & 0x00ff_ffff_ffff_ffff) | 0x0000_000F_0000_0000,
        );
        self
    }

    /// Set_Fill_Color, for a colour of 16 bits.
    pub fn set_fill_color(&mut self, color: u16) -> (next: &mut RdpCommandBuilder)
        ensures
            next@ == old(self)@.push(fill_color_word(color)),
            *final(self) == *final(next),
    {
        self.push((COMMAND_SET_FILL_COLOR << 56) | ((color as u64) << 16) | (color as u64));
        self
    }

    /// Set_Texture_Image: the image that tiles are loaded from, `width`
    /// pixels wide, at the virtual address `image`.
    pub fn set_texture_image(&mut self, format: u8, size: u8, width: u16, image: usize) -> (next:
        &mut RdpCommandBuilder)
        requires
            width >= 1,
        ensures
            next@ == old(self)@.push(
                image_word(COMMAND_SET_TEXTURE_IMAGE, format, size, width, image),
            ),
            *final(self) == *final(next),
    {
        self.push(
            (COMMAND_SET_TEXTURE_IMAGE << 56) | (((format & 0b111) as u64) << 53) | (((size
                & 0b11) as u64) << 51) | (((width - 1) as u64) << 32) | (virtual_to_physical(
                image,
            ) as u64),
        );
        self
    }

    /// Set_Combine_Mode, from the sixteen selectors of the colour combiner.
    pub fn set_combine_mode(&mut self, values: &[u8; 16]) -> (next: &mut RdpCommandBuilder)
        ensures
            next@ == old(self)@.push(combine_mode_word(values@)),
            *final(self) == *final(next),
    {
        self.push(
            (COMMAND_SET_COMBINE_MODE << 56) | ((values[0] as u64) << 52) | ((values[1] as u64)
                << 47) | ((values[2] as u64) << 44) | ((values[3] as u64) << 41) | ((
            values[4] as u64) << 37) | ((values[5] as u64) << 32) | ((values[6] as u64) << 28) | ((
            values[7] as u64) << 24) | ((values[8] as u64) << 21) | ((values[9] as u64) << 18) | ((
            values[10] as u64) << 15) | ((values[11] as u64) << 12) | ((values[12] as u64) << 9)
                | ((values[13] as u64) << 6) | ((values[14] as u64) << 3) | (values[15] as u64),
        );
        self
    }

    /// Set_Tile: describes tile `tile_index` of the texture cache.
    pub fn set_tile(
        &mut self,
        format: u8,
        size: u8,
        width: u16,
        texture_cache_start_address: u16,
        tile_index: u8,
        clamp_t: u8,
        mirror_t: u8,
        mask_t: u8,
        shift_t: u8,
        clamp_s: u8,
        mirror_s: u8,
        mask_s: u8,
        shift_s: u8,
    ) -> (next: &mut RdpCommandBuilder)
        ensures
            next@ == old(self)@.push(
                tile_word(
                    format,
                    size,
                    width,
                    texture_cache_start_address,
                    tile_index,
                    clamp_t,
                    mirror_t,
                    mask_t,
                    shift_t,
                    clamp_s,
                    mirror_s,
                    mask_s,
                    shift_s,
                ),
            ),
            *final(self) == *final(next),
    {
        self.push(
            (COMMAND_SET_TILE << 56) | (((format & 0b111) as u64) << 53) | (((size & 0b11) as u64)
                << 51) | (((width >> 2) as u64) << 41) | ((texture_cache_start_address as u64)
                << 32) | ((tile_index as u64) << 24) | ((clamp_t as u64) << 19) | ((
            mirror_t as u64) << 18) | ((mask_t as u64) << 14) | ((shift_t as u64) << 10) | ((
            clamp_s as u64) << 9) | ((mirror_s as u64) << 8) | ((mask_s as u64) << 4) | (
            shift_s as u64),
        );
        self
    }

    /// Load_Tile: loads the rectangle between the two corners of the texture
    /// image into tile `tile_index`.
    pub fn load_tile(&mut self, top_left: FixedVec2, bottom_right: FixedVec2, tile_index: u8) -> (next:
        &mut RdpCommandBuilder)
        ensures
            next@ == old(self)@.push(
                rectangle_word(COMMAND_LOAD_TILE, top_left, bottom_right, tile_index),
            ),
            *final(self) == *final(next),
    {
        self.push(
            (COMMAND_LOAD_TILE << 56) | (to_fixpoint_10_2(bottom_right.x) << 44) | (
            to_fixpoint_10_2(bottom_right.y) << 32) | ((tile_index as u64) << 24) | (
            to_fixpoint_10_2(top_left.x) << 12) | to_fixpoint_10_2(top_left.y),
        );
        self
    }

    /// Fill_Rectangle: fills the rectangle between the two corners.
    pub fn fill_rectangle(&mut self, top_left: FixedVec2, bottom_right: FixedVec2) -> (next:
        &mut RdpCommandBuilder)
        ensures
            next@ == old(self)@.push(
                rectangle_word(COMMAND_FILL_RECTANGLE, top_left, bottom_right, 0),
            ),
            *final(self) == *final(next),
    {
        let tile_index: u8 = 0;
        self.push(
            (COMMAND_FILL_RECTANGLE << 56) | (to_fixpoint_10_2(bottom_right.x) << 44) | (
            to_fixpoint_10_2(bottom_right.y) << 32) | ((tile_index as u64) << 24) | (
            to_fixpoint_10_2(top_left.x) << 12) | to_fixpoint_10_2(top_left.y),
        );
        self
    }

    /// Texture_Rectangle, in two words: the rectangle between the two
    /// corners, then the texture coordinate of its upper left corner and the
    /// step per pixel. The first word names no tile.
    pub fn texture_rectangle(
        &mut self,
        top_left: FixedVec2,
        bottom_right: FixedVec2,
        tile_index: u8,
        st_top_left: FixedVec2,
        d_xy_d_st: FixedVec2,
    ) -> (next: &mut RdpCommandBuilder)
        ensures
            next@ == old(self)@.push(
                rectangle_word(COMMAND_TEXTURE_RECTANGLE, top_left, bottom_right, 0),
            ).push(texture_step_word(st_top_left, d_xy_d_st)),
            *final(self) == *final(next),
    {
        let no_tile: u8 = 0;
        self.push(
            (COMMAND_TEXTURE_RECTANGLE << 56) | (to_fixpoint_10_2(bottom_right.x) << 44) | (
            to_fixpoint_10_2(bottom_right.y) << 32) | ((no_tile as u64) << 24) | (to_fixpoint_10_2(
                top_left.x,
            ) << 12) | to_fixpoint_10_2(top_left.y),
        );
        self.push(
            (to_fixpoint_s_10_5(st_top_left.x) << 48) | (to_fixpoint_s_10_5(st_top_left.y) << 32)
                | (to_fixpoint_s_10_5(d_xy_d_st.x) << 16) | to_fixpoint_s_10_5(d_xy_d_st.y),
        );
        self
    }

    /// Sync_Full: waits until everything before it is drawn.
    pub fn sync_full(&mut self) -> (next: &mut RdpCommandBuilder)
        ensures
            next@ == old(self)@.push(COMMAND_SYNC_FULL << 56),
            *final(self) == *final(next),
    {
        self.push(COMMAND_SYNC_FULL << 56);
        self
    }

    /// Sync_Pipe: waits until the pipeline is empty.
    pub fn sync_pipe(&mut self) -> (next: &mut RdpCommandBuilder)
        ensures
            next@ == old(self)@.push(COMMAND_SYNC_PIPE << 56),
            *final(self) == *final(next),
    {
        self.push(COMMAND_SYNC_PIPE << 56);
        self
    }

    /// Sync_Tile: waits until no tile is in use.
    pub fn sync_tile(&mut self) -> (next: &mut RdpCommandBuilder)
        ensures
            next@ == old(self)@.push(COMMAND_SYNC_TILE << 56),
            *final(self) == *final(next),
    {
        self.push(COMMAND_SYNC_TILE << 56);
        self
    }
}

} // verus!
