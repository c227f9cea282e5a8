//! The per-frame game protocol: player state, input decoding, rendering and
//! effect triggers, all expressed as operations on a [`PlayerState`] and an
//! [`AddressSpace`].
//!
//! Each frame the host invokes [`update`], which clears the framebuffer,
//! samples the primary gamepad register once, moves the player horizontally
//! by a fixed step with saturating arithmetic and an upper bounds check,
//! fires the sound and palette effects the held buttons call for, and paints
//! a 4-scanline sprite column at the new position. The spec functions in this
//! module describe every one of those steps as a transformation of the
//! address space's byte sequence, and the executable functions are proved
//! equal to them.

use vstd::prelude::*;

use crate::address_map::ADDRESS_SPACE_SIZE;
use crate::address_map::BUTTON_1;
use crate::address_map::BUTTON_2;
use crate::address_map::BUTTON_LEFT;
use crate::address_map::BUTTON_RIGHT;
use crate::address_map::COLOR4_ADDR;
use crate::address_map::FRAMEBUFFER_SIZE;
use crate::address_map::GAMEPAD1_ADDR;
use crate::address_map::HALT_FLAG;
use crate::address_map::SCREEN_HEIGHT;
use crate::address_map::SCREEN_WIDTH;
use crate::address_map::SFX_CH1_ADDR;
use crate::address_map::SYSFLAGS_ADDR;
use crate::address_map::VIDEO_ADDR;
use crate::address_map::in_video;
use crate::memory::AddressSpace;
use vstd::arithmetic::div_mod::lemma_add_mod_noop;
use vstd::arithmetic::div_mod::lemma_fundamental_div_mod;
use vstd::arithmetic::div_mod::lemma_fundamental_div_mod_converse;
use vstd::arithmetic::div_mod::lemma_mod_bound;

verus! {

/// Horizontal distance, in pixels, the player moves per frame per held
/// direction.
pub const MOVE_STEP: u8 = 2;

/// Amount added to color slot 4's blue byte per frame while the second
/// button is held.
pub const COLOR_BLUE_STEP: u8 = 0x0A;

/// Number of consecutive scanlines the sprite covers.
pub const SPRITE_HEIGHT: u16 = 4;

/// The only state carried between frames: the top-left pixel position of the
/// player's sprite.
pub struct PlayerState {
    /// Horizontal pixel position, kept strictly below `SCREEN_WIDTH`.
    pub x: u8,
    /// Vertical pixel position of the sprite's top scanline.
    pub y: u8,
}

impl PlayerState {
    /// The position lies on the screen.
    pub open spec fn wf(&self) -> bool {
        self.x < SCREEN_WIDTH && self.y < SCREEN_HEIGHT
    }
}

/// The input byte a frame acts on: the primary gamepad register, sampled
/// once at the start of the step.
pub open spec fn pad_sample(m: Seq<u8>) -> u8 {
    m[GAMEPAD1_ADDR as int]
}

/// `x` after the Left button's effect: a saturating step towards 0.
pub open spec fn after_left(x: u8, pad: u8) -> u8 {
    if pad & BUTTON_LEFT != 0 {
        if x >= MOVE_STEP {
            (x - MOVE_STEP) as u8
        } else {
            0u8
        }
    } else {
        x
    }
}

/// `x` after the Right button's effect: a saturating step towards
/// `u8::MAX`. Applied on top of Left's result, never independently.
pub open spec fn after_right(x: u8, pad: u8) -> u8 {
    if pad & BUTTON_RIGHT != 0 {
        if x + MOVE_STEP <= u8::MAX {
            (x + MOVE_STEP) as u8
        } else {
            u8::MAX
        }
    } else {
        x
    }
}

/// The horizontal position after one frame of input: Left's effect, then
/// Right's effect on the same accumulator, committed only if the candidate
/// is strictly inside the screen — an out-of-bounds candidate is silently
/// dropped and the previous position kept.
pub open spec fn moved_x(x: u8, pad: u8) -> u8 {
    let candidate = after_right(after_left(x, pad), pad);
    if candidate < SCREEN_WIDTH {
        candidate
    } else {
        x
    }
}

/// The player state after one frame of input: horizontal motion only.
pub open spec fn next_player(st: PlayerState, pad: u8) -> PlayerState {
    PlayerState { x: moved_x(st.x, pad), y: st.y }
}

/// The address space with the framebuffer region zeroed and every other
/// byte untouched.
pub open spec fn video_cleared(m: Seq<u8>) -> Seq<u8> {
    Seq::new(m.len(), |i: int| if in_video(i) { 0u8 } else { m[i] })
}

/// The address space with channel 1's fixed 4-byte waveform pattern written
/// into its register bank.
pub open spec fn sfx_pattern_applied(m: Seq<u8>) -> Seq<u8> {
    m.update(SFX_CH1_ADDR as int, 0x7Du8).update(SFX_CH1_ADDR as int + 1, 0xC3u8).update(
        SFX_CH1_ADDR as int + 2,
        0x3Cu8,
    ).update(SFX_CH1_ADDR as int + 3, 0x87u8)
}

/// Address of color slot 4's blue byte.
pub open spec fn blue_addr() -> int {
    COLOR4_ADDR as int + 2
}

/// One frame's effect on the blue byte: a fixed increment with 8-bit
/// wraparound, never saturation.
pub open spec fn blue_step(b: u8) -> u8 {
    ((b + COLOR_BLUE_STEP) % 256) as u8
}

/// The address space after the effect triggers of one frame: the waveform
/// pattern if the first button is held, then the blue increment if the
/// second is; every other byte untouched.
pub open spec fn effects_applied(m: Seq<u8>, pad: u8) -> Seq<u8> {
    let with_sfx = if pad & BUTTON_1 != 0 {
        sfx_pattern_applied(m)
    } else {
        m
    };
    if pad & BUTTON_2 != 0 {
        with_sfx.update(blue_addr(), blue_step(with_sfx[blue_addr()]))
    } else {
        with_sfx
    }
}

/// The framebuffer byte the sprite touches on scanline `y + row`: one byte
/// covers 4 horizontal pixels, so the pixel position is divided by 4 with
/// truncation.
pub open spec fn sprite_byte_addr(x: u8, y: u8, row: int) -> int {
    VIDEO_ADDR as int + ((y + row) * (SCREEN_WIDTH as int) + x) / 4
}

/// The address space after the sprite's first `rows` scanline bytes are set
/// to maximum intensity, in row order.
pub open spec fn sprite_drawn_upto(m: Seq<u8>, x: u8, y: u8, rows: int) -> Seq<u8>
    decreases rows,
{
    if rows <= 0 {
        m
    } else {
        sprite_drawn_upto(m, x, y, rows - 1).update(sprite_byte_addr(x, y, rows - 1), 0xFFu8)
    }
}

/// The address space after the whole sprite is painted: one maximum
/// intensity byte on each of its four scanlines.
pub open spec fn sprite_drawn(m: Seq<u8>, x: u8, y: u8) -> Seq<u8> {
    sprite_drawn_upto(m, x, y, SPRITE_HEIGHT as int)
}

/// The address space after one whole frame starting from memory `m` and
/// player `st`: framebuffer cleared, effects applied for the sampled pad
/// byte, sprite painted at the player's new position.
pub open spec fn frame_memory(m: Seq<u8>, st: PlayerState) -> Seq<u8> {
    let pad = pad_sample(m);
    sprite_drawn(effects_applied(video_cleared(m), pad), moved_x(st.x, pad), st.y)
}

/// Set up the player at its starting position: horizontally centered, 20
/// pixels above the bottom of the screen. Called once, before the first
/// frame; calling it again resets the position unconditionally.
pub fn init() -> (st: PlayerState)
    ensures
        st.x == SCREEN_WIDTH / 2,
        st.y == SCREEN_HEIGHT - 20,
        st.wf(),
{
    PlayerState { x: SCREEN_WIDTH / 2, y: SCREEN_HEIGHT - 20 }
}

/// Write zero to every byte of the framebuffer region, in address order;
/// no byte outside it changes.
pub fn clear_screen(mem: &mut AddressSpace)
    requires
        old(mem).wf(),
    ensures
        final(mem).wf(),
        final(mem)@ == video_cleared(old(mem)@),
{
    let ghost m0 = mem@;
    let mut i: usize = 0;
    while i < FRAMEBUFFER_SIZE
        invariant
            i <= FRAMEBUFFER_SIZE,
            mem.wf(),
            m0.len() == ADDRESS_SPACE_SIZE,
            forall|k: int|
                0 <= k < ADDRESS_SPACE_SIZE ==> mem@[k] == (if VIDEO_ADDR <= k < VIDEO_ADDR as int
                    + i {
                    0u8
                } else {
                    m0[k]
                }),
        decreases FRAMEBUFFER_SIZE - i,
    {
        mem.write(VIDEO_ADDR + i as u16, 0x00);
        i = i + 1;
    }
    proof {
        assert(mem@ =~= video_cleared(m0));
    }
}

/// One frame of input decoding, motion and effect triggers: sample the pad
/// byte once, move the player horizontally (Left's saturating step, then
/// Right's, committed only inside the screen), then write the waveform
/// pattern while the first button is held and advance the blue byte with
/// wraparound while the second is.
pub fn update_player(st: &mut PlayerState, mem: &mut AddressSpace)
    requires
        old(mem).wf(),
    ensures
        final(mem).wf(),
        final(st).x == moved_x(old(st).x, pad_sample(old(mem)@)),
        final(st).y == old(st).y,
        final(mem)@ == effects_applied(old(mem)@, pad_sample(old(mem)@)),
{
    let pad: u8 = mem.read(GAMEPAD1_ADDR);

    let mut new_x: u8 = st.x;

    if pad & BUTTON_LEFT != 0 {
        new_x = new_x.saturating_sub(MOVE_STEP);
    }

    if pad & BUTTON_RIGHT != 0 {
        new_x = new_x.saturating_add(MOVE_STEP);
    }

    if new_x < SCREEN_WIDTH {
        st.x = new_x;
    }

    if pad & BUTTON_1 != 0 {
        mem.write(SFX_CH1_ADDR, 0x7D);
        mem.write(SFX_CH1_ADDR + 1, 0xC3);
        mem.write(SFX_CH1_ADDR + 2, 0x3C);
        mem.write(SFX_CH1_ADDR + 3, 0x87);
    }

    if pad & BUTTON_2 != 0 {
        let address: u16 = COLOR4_ADDR + 2;
        let blue: u8 = mem.read(address);
        let new_blue: u8 = ((blue as u16 + COLOR_BLUE_STEP as u16) % 256) as u8;

        mem.write(address, new_blue);
    }
}

/// Paint the sprite: for four consecutive scanlines starting at the
/// player's position, write one maximum-intensity byte into the packed
/// framebuffer; nothing else changes.
pub fn draw_player(st: &PlayerState, mem: &mut AddressSpace)
    requires
        old(mem).wf(),
        st.wf(),
    ensures
        final(mem).wf(),
        final(mem)@ == sprite_drawn(old(mem)@, st.x, st.y),
{
    let ghost m0 = mem@;
    let mut row: u16 = 0;
    while row < SPRITE_HEIGHT
        invariant
            row <= SPRITE_HEIGHT,
            st.wf(),
            mem.wf(),
            m0.len() == ADDRESS_SPACE_SIZE,
            mem@ == sprite_drawn_upto(m0, st.x, st.y, row as int),
        decreases SPRITE_HEIGHT - row,
    {
        let scanline: u16 = st.y as u16 + row;
        proof {
            assert(scanline * (SCREEN_WIDTH as int) <= 23360) by (nonlinear_arith)
                requires
                    0 <= scanline <= 146,
            ;
        }
        let address: u16 = VIDEO_ADDR + ((scanline * (SCREEN_WIDTH as u16)) + st.x as u16) / 4;

        mem.write(address, 0xFF);
        row = row + 1;
    }
}

/// One whole frame, as the host drives it: clear the framebuffer, decode
/// input and fire effects, paint the sprite at the new position. The final
/// address space is exactly [`frame_memory`] of the starting one, and the
/// final player is exactly [`next_player`] for the sampled pad byte.
pub fn update(st: &mut PlayerState, mem: &mut AddressSpace)
    requires
        old(mem).wf(),
        old(st).wf(),
    ensures
        final(mem).wf(),
        final(st).wf(),
        *final(st) == next_player(*old(st), pad_sample(old(mem)@)),
        final(mem)@ == frame_memory(old(mem)@, *old(st)),
{
    let ghost m0 = mem@;
    clear_screen(mem);
    proof {
        assert(pad_sample(video_cleared(m0)) == pad_sample(m0));
    }
    update_player(st, mem);
    draw_player(st, mem);
}

/// The guest's fault policy: an unrecoverable runtime fault halts the
/// console immediately and silently — no unwinding, no structured error
/// back to the host, no recovery. The halt is requested through the halt
/// bit of the system-flags register, and nothing else is touched; the
/// host stops driving frames once it sees the bit.
pub fn panic(mem: &mut AddressSpace)
    requires
        old(mem).wf(),
    ensures
        final(mem).wf(),
        final(mem)@ == old(mem)@.update(
            SYSFLAGS_ADDR as int,
            old(mem)@[SYSFLAGS_ADDR as int] | HALT_FLAG,
        ),
{
    let flags: u8 = mem.read(SYSFLAGS_ADDR);
    mem.write(SYSFLAGS_ADDR, flags | HALT_FLAG);
}

/// Whether `i` is one of the four framebuffer bytes of the sprite at
/// `(x, y)`.
pub open spec fn is_sprite_addr(i: int, x: u8, y: u8) -> bool {
    i == sprite_byte_addr(x, y, 0) || i == sprite_byte_addr(x, y, 1) || i == sprite_byte_addr(
        x,
        y,
        2,
    ) || i == sprite_byte_addr(x, y, 3)
}

/// The packed address of a sprite row without the division: each scanline
/// is 40 framebuffer bytes wide, and the horizontal position contributes a
/// quarter of itself, truncated.
pub proof fn lemma_sprite_byte_addr_linear(x: u8, y: u8, row: int)
    ensures
        sprite_byte_addr(x, y, row) == VIDEO_ADDR + (y + row) * 40 + (x as int) / 4,
{
    lemma_fundamental_div_mod(x as int, 4);
    lemma_mod_bound(x as int, 4);
    let q = (y + row) * 40 + (x as int) / 4;
    let r = (x as int) % 4;
    assert((y + row) * (SCREEN_WIDTH as int) + x == q * 4 + r);
    lemma_fundamental_div_mod_converse((y + row) * (SCREEN_WIDTH as int) + x, 4, q, r);
}

/// Law: with the whole sprite on the screen, each of its four bytes lies
/// inside the framebuffer region, and no two rows share a byte.
pub proof fn lemma_sprite_addrs_in_framebuffer(x: u8, y: u8)
    requires
        x < SCREEN_WIDTH,
        y + SPRITE_HEIGHT <= SCREEN_HEIGHT,
    ensures
        forall|r: int| 0 <= r < SPRITE_HEIGHT ==> in_video(#[trigger] sprite_byte_addr(x, y, r)),
        forall|r: int, s: int|
            0 <= r < SPRITE_HEIGHT && 0 <= s < SPRITE_HEIGHT && r != s ==> sprite_byte_addr(
                x,
                y,
                r,
            ) != sprite_byte_addr(x, y, s),
{
    lemma_fundamental_div_mod(x as int, 4);
    lemma_mod_bound(x as int, 4);
    assert forall|r: int| 0 <= r < SPRITE_HEIGHT implies in_video(
        #[trigger] sprite_byte_addr(x, y, r),
    ) by {
        lemma_sprite_byte_addr_linear(x, y, r);
    };
    assert forall|r: int, s: int|
        0 <= r < SPRITE_HEIGHT && 0 <= s < SPRITE_HEIGHT && r != s implies sprite_byte_addr(
        x,
        y,
        r,
    ) != sprite_byte_addr(x, y, s) by {
        lemma_sprite_byte_addr_linear(x, y, r);
        lemma_sprite_byte_addr_linear(x, y, s);
    };
}

/// The four sprite writes, unrolled into one update chain.
proof fn lemma_sprite_drawn_unrolled(m: Seq<u8>, x: u8, y: u8)
    ensures
        sprite_drawn(m, x, y) == m.update(sprite_byte_addr(x, y, 0), 0xFFu8).update(
            sprite_byte_addr(x, y, 1),
            0xFFu8,
        ).update(sprite_byte_addr(x, y, 2), 0xFFu8).update(sprite_byte_addr(x, y, 3), 0xFFu8),
{
    assert(sprite_drawn_upto(m, x, y, 0) == m);
    assert(sprite_drawn_upto(m, x, y, 1) == sprite_drawn_upto(m, x, y, 0).update(
        sprite_byte_addr(x, y, 0),
        0xFFu8,
    ));
    assert(sprite_drawn_upto(m, x, y, 2) == sprite_drawn_upto(m, x, y, 1).update(
        sprite_byte_addr(x, y, 1),
        0xFFu8,
    ));
    assert(sprite_drawn_upto(m, x, y, 3) == sprite_drawn_upto(m, x, y, 2).update(
        sprite_byte_addr(x, y, 2),
        0xFFu8,
    ));
    assert(sprite_drawn(m, x, y) == sprite_drawn_upto(m, x, y, 3).update(
        sprite_byte_addr(x, y, 3),
        0xFFu8,
    ));
}

/// Law: clearing the framebuffer and then painting the sprite leaves
/// exactly the four sprite bytes at maximum intensity and every other
/// framebuffer byte at zero, for any sprite that lies wholly on the
/// screen; bytes outside the framebuffer region are untouched.
pub proof fn lemma_clear_then_draw(m: Seq<u8>, x: u8, y: u8)
    requires
        m.len() == ADDRESS_SPACE_SIZE,
        x < SCREEN_WIDTH,
        y + SPRITE_HEIGHT <= SCREEN_HEIGHT,
    ensures
        forall|i: int|
            in_video(i) ==> sprite_drawn(video_cleared(m), x, y)[i] == (if is_sprite_addr(
                i,
                x,
                y,
            ) {
                0xFFu8
            } else {
                0u8
            }),
        forall|i: int|
            0 <= i < ADDRESS_SPACE_SIZE && !in_video(i) ==> sprite_drawn(video_cleared(m), x, y)[i]
                == m[i],
{
    lemma_sprite_addrs_in_framebuffer(x, y);
    lemma_sprite_drawn_unrolled(video_cleared(m), x, y);
}

/// Law: after one whole frame the framebuffer holds exactly the four
/// bytes of the sprite at the player's new position at maximum intensity,
/// and every other framebuffer byte at zero.
pub proof fn lemma_frame_framebuffer(m: Seq<u8>, st: PlayerState)
    requires
        m.len() == ADDRESS_SPACE_SIZE,
        st.wf(),
        st.y + SPRITE_HEIGHT <= SCREEN_HEIGHT,
    ensures
        forall|i: int|
            in_video(i) ==> frame_memory(m, st)[i] == (if is_sprite_addr(
                i,
                moved_x(st.x, pad_sample(m)),
                st.y,
            ) {
                0xFFu8
            } else {
                0u8
            }),
{
    let pad = pad_sample(m);
    let nx = moved_x(st.x, pad);
    lemma_sprite_addrs_in_framebuffer(nx, st.y);
    lemma_sprite_drawn_unrolled(effects_applied(video_cleared(m), pad), nx, st.y);
    assert(forall|i: int|
        in_video(i) ==> effects_applied(video_cleared(m), pad)[i] == video_cleared(m)[i]);
}

/// Law: one frame advances color slot 4's blue byte by exactly one
/// wraparound step while the second button is held, and leaves it
/// untouched otherwise — no other write of the frame reaches it, as long
/// as the sprite lies wholly on the screen.
pub proof fn lemma_frame_blue(m: Seq<u8>, st: PlayerState)
    requires
        m.len() == ADDRESS_SPACE_SIZE,
        st.wf(),
        st.y + SPRITE_HEIGHT <= SCREEN_HEIGHT,
    ensures
        pad_sample(m) & BUTTON_2 != 0 ==> frame_memory(m, st)[blue_addr()] == blue_step(
            m[blue_addr()],
        ),
        pad_sample(m) & BUTTON_2 == 0 ==> frame_memory(m, st)[blue_addr()] == m[blue_addr()],
{
    let pad = pad_sample(m);
    let nx = moved_x(st.x, pad);
    lemma_sprite_addrs_in_framebuffer(nx, st.y);
    lemma_sprite_drawn_unrolled(effects_applied(video_cleared(m), pad), nx, st.y);
    assert(!in_video(blue_addr()));
    assert(video_cleared(m)[blue_addr()] == m[blue_addr()]);
}

/// Law: with neither horizontal direction held, the player does not move.
pub proof fn lemma_no_horizontal_input(x: u8, pad: u8)
    requires
        pad & BUTTON_LEFT == 0,
        pad & BUTTON_RIGHT == 0,
    ensures
        moved_x(x, pad) == x,
{
}

/// Law: with only Left held, a player inside the screen steps two pixels
/// towards the left edge and stops there (saturating floor at zero).
pub proof fn lemma_left_only(x: u8, pad: u8)
    requires
        pad & BUTTON_LEFT != 0,
        pad & BUTTON_RIGHT == 0,
        x < SCREEN_WIDTH,
    ensures
        x >= MOVE_STEP ==> moved_x(x, pad) == x - MOVE_STEP,
        x < MOVE_STEP ==> moved_x(x, pad) == 0,
{
}

/// Law: with only Right held, the player steps two pixels right while the
/// result stays strictly inside the screen; otherwise the candidate is
/// rejected and the position is unchanged — the bounds check fires, never
/// the saturating ceiling, for positions below the screen width.
pub proof fn lemma_right_only(x: u8, pad: u8)
    requires
        pad & BUTTON_RIGHT != 0,
        pad & BUTTON_LEFT == 0,
    ensures
        x + MOVE_STEP < SCREEN_WIDTH ==> moved_x(x, pad) == x + MOVE_STEP,
        x + MOVE_STEP >= SCREEN_WIDTH ==> moved_x(x, pad) == x,
{
}

/// Memory and player after `n` whole frames driven from memory `m` and
/// player `st`.
pub open spec fn frames_after(m: Seq<u8>, st: PlayerState, n: nat) -> (Seq<u8>, PlayerState)
    decreases n,
{
    if n == 0 {
        (m, st)
    } else {
        let prev = frames_after(m, st, (n - 1) as nat);
        (frame_memory(prev.0, prev.1), next_player(prev.1, pad_sample(prev.0)))
    }
}

/// Law: one frame keeps the address space's size, never touches the
/// gamepad register, keeps the player on the screen and never moves it
/// vertically.
pub proof fn lemma_frame_preserves(m: Seq<u8>, st: PlayerState)
    requires
        m.len() == ADDRESS_SPACE_SIZE,
        st.wf(),
        st.y + SPRITE_HEIGHT <= SCREEN_HEIGHT,
    ensures
        frame_memory(m, st).len() == ADDRESS_SPACE_SIZE,
        pad_sample(frame_memory(m, st)) == pad_sample(m),
        next_player(st, pad_sample(m)).wf(),
        next_player(st, pad_sample(m)).y == st.y,
{
    let pad = pad_sample(m);
    let nx = moved_x(st.x, pad);
    lemma_sprite_addrs_in_framebuffer(nx, st.y);
    lemma_sprite_drawn_unrolled(effects_applied(video_cleared(m), pad), nx, st.y);
    assert(!in_video(GAMEPAD1_ADDR as int));
}

/// Law: what one frame preserves, any number of frames preserves — the
/// gamepad byte, the address space's size, the player's vertical position
/// and its well-formedness.
pub proof fn lemma_frames_preserve(m: Seq<u8>, st: PlayerState, n: nat)
    requires
        m.len() == ADDRESS_SPACE_SIZE,
        st.wf(),
        st.y + SPRITE_HEIGHT <= SCREEN_HEIGHT,
    ensures
        frames_after(m, st, n).0.len() == ADDRESS_SPACE_SIZE,
        pad_sample(frames_after(m, st, n).0) == pad_sample(m),
        frames_after(m, st, n).1.wf(),
        frames_after(m, st, n).1.y == st.y,
    decreases n,
{
    if n > 0 {
        lemma_frames_preserve(m, st, (n - 1) as nat);
        lemma_frame_preserves(frames_after(m, st, (n - 1) as nat).0, frames_after(m, st, (n - 1) as nat).1);
    }
}

/// Color slot 4's blue byte after `n` consecutive frames with the second
/// button held.
pub open spec fn blue_after_frames(b: u8, n: nat) -> u8
    decreases n,
{
    if n == 0 {
        b
    } else {
        blue_step(blue_after_frames(b, (n - 1) as nat))
    }
}

/// Law: holding the second button for `n` consecutive frames advances the
/// blue byte by `COLOR_BLUE_STEP * n` modulo 256 — wraparound, never
/// saturation.
pub proof fn lemma_blue_accumulates(b: u8, n: nat)
    ensures
        blue_after_frames(b, n) == ((b + COLOR_BLUE_STEP * n) % 256) as u8,
    decreases n,
{
    if n == 0 {
        assert((b as int) % 256 == b as int);
    } else {
        lemma_blue_accumulates(b, (n - 1) as nat);
        lemma_mod_bound(b + COLOR_BLUE_STEP * (n - 1), 256);
        lemma_add_mod_noop(b + COLOR_BLUE_STEP * (n - 1), COLOR_BLUE_STEP as int, 256);
    }
}

/// Law: the frame loop realizes [`blue_after_frames`] — while the second
/// button is held, each frame takes exactly one wraparound step on the
/// blue byte.
pub proof fn lemma_blue_over_frames(m: Seq<u8>, st: PlayerState, n: nat)
    requires
        m.len() == ADDRESS_SPACE_SIZE,
        st.wf(),
        st.y + SPRITE_HEIGHT <= SCREEN_HEIGHT,
        pad_sample(m) & BUTTON_2 != 0,
    ensures
        frames_after(m, st, n).0[blue_addr()] == blue_after_frames(m[blue_addr()], n),
    decreases n,
{
    if n > 0 {
        lemma_blue_over_frames(m, st, (n - 1) as nat);
        lemma_frames_preserve(m, st, (n - 1) as nat);
        lemma_frame_blue(frames_after(m, st, (n - 1) as nat).0, frames_after(m, st, (n - 1) as nat).1);
    }
}

/// Law: holding the second button for `n` consecutive frames advances
/// color slot 4's blue byte by `COLOR_BLUE_STEP * n` modulo 256 —
/// wraparound, never saturation.
pub proof fn lemma_blue_held_n_frames(m: Seq<u8>, st: PlayerState, n: nat)
    requires
        m.len() == ADDRESS_SPACE_SIZE,
        st.wf(),
        st.y + SPRITE_HEIGHT <= SCREEN_HEIGHT,
        pad_sample(m) & BUTTON_2 != 0,
    ensures
        frames_after(m, st, n).0[blue_addr()] == ((m[blue_addr()] + COLOR_BLUE_STEP * n)
            % 256) as u8,
{
    lemma_blue_over_frames(m, st, n);
    lemma_blue_accumulates(m[blue_addr()], n);
}

} // verus!
