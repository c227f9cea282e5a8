//! Guest-side core of a minimal fantasy console: a flat 64K memory-mapped
//! address space (framebuffer, gamepad, sound and color registers) and the
//! per-frame update protocol a cartridge runs on top of it — bounded player
//! motion from raw button bits, a packed framebuffer write pattern, and
//! register-driven sound and palette effects.

pub mod address_map;
pub mod game;
pub mod memory;
