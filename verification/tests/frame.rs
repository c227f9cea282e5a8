use bytebox::address_map::BUTTON_1;
use bytebox::address_map::BUTTON_2;
use bytebox::address_map::BUTTON_DOWN;
use bytebox::address_map::BUTTON_LEFT;
use bytebox::address_map::BUTTON_RIGHT;
use bytebox::address_map::BUTTON_UP;
use bytebox::address_map::COLOR4_ADDR;
use bytebox::address_map::DUMP_WRAM_FLAG;
use bytebox::address_map::FRAMEBUFFER_SIZE;
use bytebox::address_map::GAMEPAD1_ADDR;
use bytebox::address_map::HALT_FLAG;
use bytebox::address_map::SYSFLAGS_ADDR;
use bytebox::address_map::SCREEN_HEIGHT;
use bytebox::address_map::SCREEN_WIDTH;
use bytebox::address_map::SFX_CH1_ADDR;
use bytebox::address_map::VIDEO_ADDR;
use bytebox::game::clear_screen;
use bytebox::game::draw_player;
use bytebox::game::init;
use bytebox::game::update;
use bytebox::game::PlayerState;
use bytebox::memory::AddressSpace;

/// One frame on a fresh address space whose gamepad register holds `pad`,
/// starting from the player at `x`.
fn run_frame(x: u8, pad: u8) -> (PlayerState, AddressSpace) {
    let mut mem = AddressSpace::new();
    mem.write(GAMEPAD1_ADDR, pad);
    let mut st = PlayerState { x, y: SCREEN_HEIGHT - 20 };
    update(&mut st, &mut mem);
    (st, mem)
}

#[test]
fn init_centers_player() {
    let st = init();
    assert_eq!(st.x, 80);
    assert_eq!(st.y, 124);
    assert_eq!(st.x, SCREEN_WIDTH / 2);
    assert_eq!(st.y, SCREEN_HEIGHT - 20);
}

#[test]
fn no_direction_leaves_x_unchanged() {
    let (st, _) = run_frame(80, 0);
    assert_eq!(st.x, 80);
}

#[test]
fn other_buttons_leave_x_unchanged() {
    let (st, _) = run_frame(37, BUTTON_UP | BUTTON_DOWN | BUTTON_1 | BUTTON_2);
    assert_eq!(st.x, 37);
}

#[test]
fn left_steps_two_pixels() {
    let (st, _) = run_frame(100, BUTTON_LEFT);
    assert_eq!(st.x, 98);
    let (st, _) = run_frame(2, BUTTON_LEFT);
    assert_eq!(st.x, 0);
}

#[test]
fn left_saturates_at_zero() {
    let (st, _) = run_frame(1, BUTTON_LEFT);
    assert_eq!(st.x, 0);
    let (st, _) = run_frame(0, BUTTON_LEFT);
    assert_eq!(st.x, 0);
}

#[test]
fn right_steps_two_pixels() {
    let (st, _) = run_frame(100, BUTTON_RIGHT);
    assert_eq!(st.x, 102);
    let (st, _) = run_frame(157, BUTTON_RIGHT);
    assert_eq!(st.x, 159);
}

#[test]
fn right_candidate_out_of_bounds_is_dropped() {
    let (st, _) = run_frame(158, BUTTON_RIGHT);
    assert_eq!(st.x, 158);
    let (st, _) = run_frame(159, BUTTON_RIGHT);
    assert_eq!(st.x, 159);
}

#[test]
fn both_directions_cancel_from_100() {
    // Left lands on 98, Right is applied on top of it and lands back on 100.
    let (st, _) = run_frame(100, BUTTON_LEFT | BUTTON_RIGHT);
    assert_eq!(st.x, 100);
}

#[test]
fn vertical_position_never_moves() {
    let (st, _) = run_frame(80, BUTTON_UP | BUTTON_DOWN | BUTTON_LEFT);
    assert_eq!(st.y, SCREEN_HEIGHT - 20);
}

#[test]
fn clear_then_draw_leaves_exactly_four_bytes_lit() {
    let mut mem = AddressSpace::new();
    // Dirty the framebuffer first so the clear is visible.
    for i in 0..FRAMEBUFFER_SIZE {
        mem.write(VIDEO_ADDR + i as u16, 0xAB);
    }
    let st = init();
    clear_screen(&mut mem);
    draw_player(&st, &mut mem);
    let mut lit: Vec<usize> = Vec::new();
    for i in 0..FRAMEBUFFER_SIZE {
        let v = mem.read(VIDEO_ADDR + i as u16);
        if v == 0xFF {
            lit.push(i);
        } else {
            assert_eq!(v, 0x00);
        }
    }
    // One byte per scanline, 40 packed bytes per row: (124 + r) * 40 + 80 / 4.
    assert_eq!(lit, vec![4980, 5020, 5060, 5100]);
}

#[test]
fn frame_paints_sprite_at_new_position() {
    let (st, mem) = run_frame(80, BUTTON_RIGHT);
    assert_eq!(st.x, 82);
    let mut lit: Vec<usize> = Vec::new();
    for i in 0..FRAMEBUFFER_SIZE {
        if mem.read(VIDEO_ADDR + i as u16) == 0xFF {
            lit.push(i);
        }
    }
    // 82 / 4 == 20, the same packed column as 80: (124 + r) * 40 + 20.
    assert_eq!(lit, vec![4980, 5020, 5060, 5100]);
}

#[test]
fn button_1_writes_waveform_pattern() {
    let (_, mem) = run_frame(80, BUTTON_1);
    assert_eq!(mem.read(SFX_CH1_ADDR), 0x7D);
    assert_eq!(mem.read(SFX_CH1_ADDR + 1), 0xC3);
    assert_eq!(mem.read(SFX_CH1_ADDR + 2), 0x3C);
    assert_eq!(mem.read(SFX_CH1_ADDR + 3), 0x87);
}

#[test]
fn no_button_1_leaves_sfx_bank_unchanged() {
    let (_, mem) = run_frame(80, BUTTON_2);
    assert_eq!(mem.read(SFX_CH1_ADDR), 0x00);
    assert_eq!(mem.read(SFX_CH1_ADDR + 1), 0x00);
    assert_eq!(mem.read(SFX_CH1_ADDR + 2), 0x00);
    assert_eq!(mem.read(SFX_CH1_ADDR + 3), 0x00);
}

#[test]
fn button_2_held_adds_ten_per_frame() {
    let mut mem = AddressSpace::new();
    mem.write(GAMEPAD1_ADDR, BUTTON_2);
    let mut st = init();
    for n in 1..=5u32 {
        update(&mut st, &mut mem);
        assert_eq!(mem.read(COLOR4_ADDR + 2) as u32, 10 * n);
    }
}

#[test]
fn blue_byte_wraps_around() {
    let mut mem = AddressSpace::new();
    mem.write(GAMEPAD1_ADDR, BUTTON_2);
    mem.write(COLOR4_ADDR + 2, 250);
    let mut st = init();
    update(&mut st, &mut mem);
    assert_eq!(mem.read(COLOR4_ADDR + 2), 4);
    // 10 * N mod 256 over enough frames to wrap: 25 more frames land on 254.
    for _ in 0..25 {
        update(&mut st, &mut mem);
    }
    assert_eq!(mem.read(COLOR4_ADDR + 2), 254);
}

#[test]
fn button_2_released_leaves_blue_unchanged() {
    let mut mem = AddressSpace::new();
    mem.write(COLOR4_ADDR + 2, 123);
    let mut st = init();
    update(&mut st, &mut mem);
    assert_eq!(mem.read(COLOR4_ADDR + 2), 123);
}

#[test]
fn frame_leaves_gamepad_byte_unchanged() {
    let pad = BUTTON_LEFT | BUTTON_1;
    let (_, mem) = run_frame(80, pad);
    assert_eq!(mem.read(GAMEPAD1_ADDR), pad);
}

#[test]
fn fault_raises_halt_flag_and_nothing_else() {
    let mut mem = AddressSpace::new();
    mem.write(SYSFLAGS_ADDR, DUMP_WRAM_FLAG);
    bytebox::game::panic(&mut mem);
    assert_eq!(mem.read(SYSFLAGS_ADDR), HALT_FLAG | DUMP_WRAM_FLAG);
    assert_eq!(mem.read(GAMEPAD1_ADDR), 0);
    // Halting again changes nothing: the bit is already raised.
    bytebox::game::panic(&mut mem);
    assert_eq!(mem.read(SYSFLAGS_ADDR), HALT_FLAG | DUMP_WRAM_FLAG);
}

#[test]
fn fresh_address_space_is_zeroed() {
    let mem = AddressSpace::new();
    assert_eq!(mem.read(0), 0);
    assert_eq!(mem.read(VIDEO_ADDR), 0);
    assert_eq!(mem.read(65535), 0);
}
