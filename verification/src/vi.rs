//! The video interface: the register values that set a video mode up.

use vstd::prelude::*;

verus! {

/// Where the video interface's registers begin.
pub const VI_BASE: usize = 0xA440_0000;

/// Status and control.
pub const VI_STATUS: usize = 0xA440_0000;

/// Address of the frame buffer that is shown.
pub const VI_DRAM_ADDR: usize = 0xA440_0004;

/// Width of a line in pixels.
pub const VI_H_WIDTH: usize = 0xA440_0008;

/// Half-line at which the interrupt is raised.
pub const VI_V_INTR: usize = 0xA440_000C;

/// Half-line that the beam is on.
pub const VI_CURRENT: usize = 0xA440_0010;

/// Burst timing.
pub const VI_TIMING: usize = 0xA440_0014;

/// Half-lines in a field.
pub const VI_V_SYNC: usize = 0xA440_0018;

/// Length of a line.
pub const VI_H_SYNC: usize = 0xA440_001C;

/// Length of a leap line.
pub const VI_H_SYNC_LEAP: usize = 0xA440_0020;

/// Start and end of the picture in a line.
pub const VI_H_VIDEO: usize = 0xA440_0024;

/// Start and end of the picture in a field.
pub const VI_V_VIDEO: usize = 0xA440_0028;

/// Start and end of the colour burst.
pub const VI_V_BURST: usize = 0xA440_002C;

/// Horizontal scale factor.
pub const VI_X_SCALE: usize = 0xA440_0030;

/// Vertical scale factor.
pub const VI_Y_SCALE: usize = 0xA440_0034;

/// A television standard with the size of the picture in pixels.
#[derive(Clone, Copy, Debug, PartialEq, Eq, Structural)]
pub enum VideoMode {
    Ntsc { width: u16, height: u16 },
    Pal { width: u16, height: u16 },
}

/// One register and the value to write to it.
#[derive(Clone, Copy, Debug, PartialEq, Eq, Structural)]
pub struct RegisterWrite {
    pub register: usize,
    pub value: usize,
}

impl VideoMode {
    /// The width of the picture in pixels.
    pub open spec fn spec_width(&self) -> u16 {
        match *self {
            VideoMode::Ntsc { width, .. } => width,
            VideoMode::Pal { width, .. } => width,
        }
    }

    /// The height of the picture in pixels.
    pub open spec fn spec_height(&self) -> u16 {
        match *self {
            VideoMode::Ntsc { height, .. } => height,
            VideoMode::Pal { height, .. } => height,
        }
    }

    /// The width of the picture in pixels.
    #[verifier::when_used_as_spec(spec_width)]
    pub fn width(&self) -> (width: u16)
        ensures
            width == self.spec_width(),
    {
        match self {
            VideoMode::Ntsc { width, .. } => *width,
            VideoMode::Pal { width, .. } => *width,
        }
    }

    /// The height of the picture in pixels.
    #[verifier::when_used_as_spec(spec_height)]
    pub fn height(&self) -> (height: u16)
        ensures
            height == self.spec_height(),
    {
        match self {
            VideoMode::Ntsc { height, .. } => *height,
            VideoMode::Pal { height, .. } => *height,
        }
    }
}

/// The horizontal scale factor for a picture `width` pixels wide.
pub open spec fn x_scale(width: u16) -> usize {
    (0x100 * width / 160) as usize
}

/// The vertical scale factor for a picture `height` pixels high.
pub open spec fn y_scale(height: u16) -> usize {
    (0x100 * height / 60) as usize
}

/// The write of `value` to `register`.
pub open spec fn write(register: usize, value: usize) -> RegisterWrite {
    RegisterWrite { register, value }
}

/// The thirteen writes that set `video_mode` up, in order, with the picture
/// read from `frame_buffer`: the timing of the television standard, and the
/// width and the two scale factors of the picture.
pub open spec fn init_writes(video_mode: VideoMode, frame_buffer: usize) -> Seq<RegisterWrite> {
    let ntsc = video_mode is Ntsc;
    seq![
        write(VI_STATUS, 0x0000_320E),
        write(VI_DRAM_ADDR, frame_buffer),
        write(VI_H_WIDTH, video_mode.width() as usize),
        write(VI_V_INTR, if ntsc { 0x2 } else { 0x200 }),
        write(VI_TIMING, if ntsc { 0x03E5_2239 } else { 0x0404_233A }),
        write(VI_V_SYNC, if ntsc { 0x0000_020D } else { 0x0000_0271 }),
        write(VI_H_SYNC, if ntsc { 0x0000_0C15 } else { 0x0015_0C69 }),
        write(VI_H_SYNC_LEAP, if ntsc { 0x0C15_0C15 } else { 0x0C6F_0C6E }),
        write(VI_H_VIDEO, if ntsc { 0x006C_02EC } else { 0x0080_0300 }),
        write(VI_V_VIDEO, if ntsc { 0x0025_01FF } else { 0x005F_0239 }),
        write(VI_V_BURST, if ntsc { 0x000E_0204 } else { 0x0009_026B }),
        write(VI_X_SCALE, x_scale(video_mode.width())),
        write(VI_Y_SCALE, y_scale(video_mode.height())),
    ]
}

/// The register writes that set `video_mode` up, in the order in which
/// they are to be made.
pub fn init(video_mode: VideoMode, frame_buffer: usize) -> (writes: Vec<RegisterWrite>)
    ensures
        writes@ == init_writes(video_mode, frame_buffer),
        writes@.len() == 13,
{
    let width: usize = video_mode.width() as usize;
    let height: usize = video_mode.height() as usize;
    let mut writes: Vec<RegisterWrite> = Vec::new();
    writes.push(RegisterWrite { register: VI_STATUS, value: 0x0000_320E });
    writes.push(RegisterWrite { register: VI_DRAM_ADDR, value: frame_buffer });
    writes.push(RegisterWrite { register: VI_H_WIDTH, value: width });
    match video_mode {
        VideoMode::Ntsc { .. } => {
            writes.push(RegisterWrite { register: VI_V_INTR, value: 2 });
            writes.push(RegisterWrite { register: VI_TIMING, value: 0x03E5_2239 });
            writes.push(RegisterWrite { register: VI_V_SYNC, value: 0x0000_020D });
            writes.push(RegisterWrite { register: VI_H_SYNC, value: 0x0000_0C15 });
            writes.push(RegisterWrite { register: VI_H_SYNC_LEAP, value: 0x0C15_0C15 });
            writes.push(RegisterWrite { register: VI_H_VIDEO, value: 0x006C_02EC });
            writes.push(RegisterWrite { register: VI_V_VIDEO, value: 0x0025_01FF });
            writes.push(RegisterWrite { register: VI_V_BURST, value: 0x000E_0204 });
        },
        VideoMode::Pal { .. } => {
            writes.push(RegisterWrite { register: VI_V_INTR, value: 0x200 });
            writes.push(RegisterWrite { register: VI_TIMING, value: 0x0404_233A });
            writes.push(RegisterWrite { register: VI_V_SYNC, value: 0x0000_0271 });
            writes.push(RegisterWrite { register: VI_H_SYNC, value: 0x0015_0C69 });
            writes.push(RegisterWrite { register: VI_H_SYNC_LEAP, value: 0x0C6F_0C6E });
            writes.push(RegisterWrite { register: VI_H_VIDEO, value: 0x0080_0300 });
            writes.push(RegisterWrite { register: VI_V_VIDEO, value: 0x005F_0239 });
            writes.push(RegisterWrite { register: VI_V_BURST, value: 0x0009_026B });
        },
    }
    writes.push(RegisterWrite { register: VI_X_SCALE, value: 0x100 * width / 160 });
    writes.push(RegisterWrite { register: VI_Y_SCALE, value: 0x100 * height / 60 });
    assert(writes@ =~= init_writes(video_mode, frame_buffer));
    writes
}

/// Whether the beam is in the vertical blank when the current half-line
/// reads `current_halfline`: the moment to swap buffers.
pub fn in_vblank(current_halfline: usize) -> (blank: bool)
    ensures
        blank == (current_halfline <= 1),
{
    current_halfline <= 1
}

} // verus!
