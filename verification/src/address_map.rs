//! The console's fixed address map: named byte offsets into the flat 64K
//! address space shared with the host, plus screen geometry and the bit
//! assignments of the system-flag and gamepad registers. All addresses are
//! disjoint and known at build time; nothing here is allocated dynamically.

use vstd::prelude::*;

verus! {

/// Screen width in pixels.
pub const SCREEN_WIDTH: u8 = 160;

/// Screen height in pixels.
pub const SCREEN_HEIGHT: u8 = 144;

/// Size of the framebuffer region in bytes: one byte covers a 4-pixel-wide
/// column of one scanline, so the region holds 160 * 144 / 4 bytes.
pub const FRAMEBUFFER_SIZE: usize = 160 * 144 / 4;

/// Number of bytes in the flat address space (16-bit addresses).
pub const ADDRESS_SPACE_SIZE: usize = 65536;

/// System-flags register.
pub const SYSFLAGS_ADDR: u16 = 0x0040;

/// Seed register for the host's random number generator.
pub const SEED_ADDR: u16 = 0x0041;

/// Start of the game-name string region.
pub const GAMENAME_ADDR: u16 = 0x0044;

/// Start of general-purpose working RAM.
pub const WRAM_ADDR: u16 = 0xE100;

/// Base of the framebuffer (video memory) region.
pub const VIDEO_ADDR: u16 = 0xE900;

/// Color register banks, one per color slot (RGB-like, byte per channel).
pub const COLOR1_ADDR: u16 = 0xFF84;

/// Second color slot.
pub const COLOR2_ADDR: u16 = 0xFF87;

/// Third color slot.
pub const COLOR3_ADDR: u16 = 0xFF8A;

/// Fourth color slot.
pub const COLOR4_ADDR: u16 = 0xFF8D;

/// Primary gamepad register: one byte of button bits, sampled each frame.
pub const GAMEPAD1_ADDR: u16 = 0xFF94;

/// Secondary gamepad register.
pub const GAMEPAD2_ADDR: u16 = 0xFF95;

/// Sound-effect channel register banks, 4 bytes each.
pub const SFX_CH1_ADDR: u16 = 0xFF98;

/// Second sound channel.
pub const SFX_CH2_ADDR: u16 = 0xFF9C;

/// Third sound channel.
pub const SFX_CH3_ADDR: u16 = 0xFFA0;

/// Fourth sound channel.
pub const SFX_CH4_ADDR: u16 = 0xFFA4;

/// System-flag bit: halt the console.
pub const HALT_FLAG: u8 = 0x01;

/// System-flag bit: dump working RAM.
pub const DUMP_WRAM_FLAG: u8 = 0x02;

/// Gamepad bit: second action button.
pub const BUTTON_2: u8 = 0x01;

/// Gamepad bit: first action button.
pub const BUTTON_1: u8 = 0x02;

/// Gamepad bit: right on the directional pad.
pub const BUTTON_RIGHT: u8 = 0x10;

/// Gamepad bit: down on the directional pad.
pub const BUTTON_DOWN: u8 = 0x20;

/// Gamepad bit: up on the directional pad.
pub const BUTTON_UP: u8 = 0x40;

/// Gamepad bit: left on the directional pad.
pub const BUTTON_LEFT: u8 = 0x80;

/// One past the last framebuffer address, as a mathematical integer.
pub open spec fn video_end() -> int {
    VIDEO_ADDR as int + FRAMEBUFFER_SIZE as int
}

/// Whether address `i` lies in the framebuffer region.
pub open spec fn in_video(i: int) -> bool {
    VIDEO_ADDR <= i < video_end()
}

} // verus!
