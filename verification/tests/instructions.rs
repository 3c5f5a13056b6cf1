use chip8::machine::{Chip8, Chip8Error};
use chip8::WIDTH;

#[test]
fn test_default_values() {
    let chip = Chip8::new();
    assert_eq!(0x200, chip.pc);
    assert_eq!(0, chip.i);
}

#[test]
fn test_fetch() {
    let mut chip = Chip8::new();
    let pc = chip.pc;
    chip.ram[pc] = 0xA2;
    chip.ram[pc + 1] = 0xF0;

    assert_eq!(0xA2F0, chip.fetch().unwrap());
}

#[test]
fn test_fetch_reserved() {
    let mut chip = Chip8::new();
    chip.pc = 0x1FF;
    assert_eq!(Err(Chip8Error::ReservedMemoryAccess), chip.fetch());
}

#[test]
fn test_00e0_should_clear_screen() {
    let mut chip = Chip8::new();

    for e in chip.vram.iter_mut() {
        *e = true;
    }

    chip.decode(0x00E0).unwrap();

    let iter = chip.vram.iter().filter(|x| **x == true);
    assert_eq!(0, iter.count());
}

#[test]
fn test_1nnn_should_jump() {
    let mut chip = Chip8::new();
    assert_eq!(0x200, chip.pc);

    chip.decode(0x142C).unwrap();
    assert_eq!(0x42C as usize, chip.pc);
}

#[test]
fn test_6xnn_should_store_number_in_register_x() {
    let mut chip = Chip8::new();
    let register_number = 8;
    assert_eq!(0, chip.registers[register_number]);

    chip.decode(0x6842).unwrap();
    assert_eq!(0x42, chip.registers[register_number]);
}

#[test]
fn test_7xnn_should_add_value_to_register_x() {
    let mut chip = Chip8::new();
    let register_number = 8;
    chip.decode(0x6842).unwrap();
    assert_eq!(0x42, chip.registers[register_number]);

    chip.decode(0x7808).unwrap();
    assert_eq!(0x42 + 0x08, chip.registers[register_number]);
}

#[test]
fn test_annn_store_address_in_register() {
    let mut chip = Chip8::new();
    assert_eq!(0, chip.i);

    chip.decode(0xA123).unwrap();
    assert_eq!(0x123, chip.i);
}

#[test]
fn test_dxyn_updates_vram() {
    let mut chip = Chip8::new();
    let x = 0;
    let y = 1;
    chip.registers[x] = 8;
    chip.registers[y] = 16;

    chip.i = 0x200;
    chip.ram[0x200] = 0b1001_1001;
    chip.ram[0x201] = 0b0110_0110;

    let start_position = chip.registers[x] as usize + (chip.registers[y] as usize * WIDTH);

    // first row
    assert_eq!([false; 8], chip.vram[start_position..start_position + 8]);
    // second row
    assert_eq!(
        [false; 8],
        chip.vram[start_position + WIDTH..start_position + WIDTH + 8]
    );

    chip.decode(0xD012).unwrap();

    // first row
    assert_eq!(
        [true, false, false, true, true, false, false, true],
        chip.vram[start_position..start_position + 8]
    );
    // second row
    assert_eq!(
        [false, true, true, false, false, true, true, false],
        chip.vram[start_position + WIDTH..start_position + WIDTH + 8]
    );

    assert_eq!(0, chip.registers[0xF]);
}

#[test]
fn test_dxyn_updates_vram_and_vf_register() {
    let mut chip = Chip8::new();
    chip.registers[0] = 0;

    chip.i = 0x200;
    chip.ram[0x200] = 0b1000_0000;
    chip.vram[0] = true;

    assert_eq!(
        [true, false, false, false, false, false, false, false],
        chip.vram[0..8]
    );
    assert_eq!(0, chip.registers[0xF]);

    chip.decode(0xD001).unwrap();

    assert_eq!([false; 8], chip.vram[0..8]);
    assert_eq!(1, chip.registers[0xF]);
}

#[test]
fn test_dxyn_updates_vram_and_clip_on_x() {
    let mut chip = Chip8::new();
    let position_x: usize = 62;
    chip.registers[0] = position_x as u8; // should update vram[62..=63] only
    chip.registers[1] = 0;

    chip.i = 0x200;
    chip.ram[0x200] = 0xFF;

    assert_eq!(
        [false, false, false, false, false, false, false, false],
        chip.vram[position_x..position_x + 8],
    );

    chip.decode(0xD011).unwrap();
    assert_eq!(
        [true, true, false, false, false, false, false, false], // 62, 63, EDGE (clip here)
        chip.vram[position_x..position_x + 8],
    );
}

#[test]
fn test_dxyn_updates_vram_and_clip_on_y() {
    let mut chip = Chip8::new();
    let position_y: usize = 30;
    chip.registers[0] = 0;
    chip.registers[1] = position_y as u8;

    chip.i = 0x200;
    chip.ram[0x200] = 0xF0;
    chip.ram[0x201] = 0xF0;
    chip.ram[0x202] = 0xF0;
    chip.ram[0x203] = 0xF0;

    // row 30
    assert_eq!(
        [false, false, false, false, false, false, false, false],
        chip.vram[position_y * WIDTH..position_y * WIDTH + 8],
    );

    // row 31
    assert_eq!(
        [false, false, false, false, false, false, false, false],
        chip.vram[position_y * WIDTH..position_y * WIDTH + 8],
    );

    chip.decode(0xD014).unwrap();

    // row 30
    assert_eq!(
        [true, true, true, true, false, false, false, false],
        chip.vram[position_y * WIDTH..position_y * WIDTH + 8],
    );

    // row 31
    assert_eq!(
        [true, true, true, true, false, false, false, false],
        chip.vram[position_y * WIDTH..position_y * WIDTH + 8],
    );
}

#[test]
fn test_2nnn_should_update_pc_and_stack() {
    let mut chip = Chip8::new();
    assert_eq!(0x200, chip.pc);
    assert!(chip.stack.is_empty());

    chip.decode(0x2123).unwrap();

    assert_eq!(Some(&0x200), chip.stack.last());
    assert_eq!(0x123, chip.pc);
}

#[test]
fn test_00ee_should_pop_stack_and_update_pc() {
    let mut chip = Chip8::new();
    assert_eq!(0x200, chip.pc);
    assert!(chip.stack.is_empty());
    chip.stack.push(0x123);

    chip.decode(0x00EE).unwrap();

    assert!(chip.stack.is_empty());
    assert_eq!(0x123, chip.pc);
}

#[test]
fn test_3xnn_should_skip_instruction() {
    let mut chip = Chip8::new();
    chip.registers[0xA] = 0x42;
    assert_eq!(0x200, chip.pc);

    chip.decode(0x3A42).unwrap();

    assert_eq!(0x202, chip.pc);
}

#[test]
fn test_3xnn_should_not_skip_instruction() {
    let mut chip = Chip8::new();
    chip.registers[0xA] = 0x41;
    assert_eq!(0x200, chip.pc);

    chip.decode(0x3A42).unwrap();

    assert_eq!(0x200, chip.pc);
}

#[test]
fn test_4xnn_should_skip_instruction() {
    let mut chip = Chip8::new();
    chip.registers[0xA] = 0x41;
    assert_eq!(0x200, chip.pc);

    chip.decode(0x4A42).unwrap();

    assert_eq!(0x202, chip.pc);
}

#[test]
fn test_4xnn_should_not_skip_instruction() {
    let mut chip = Chip8::new();
    chip.registers[0xA] = 0x42;
    assert_eq!(0x200, chip.pc);

    chip.decode(0x4A42).unwrap();

    assert_eq!(0x200, chip.pc);
}

#[test]
fn test_5xy0_should_skip_instruction() {
    let mut chip = Chip8::new();
    chip.registers[0xA] = 0x41;
    chip.registers[0xB] = 0x41;
    assert_eq!(0x200, chip.pc);

    chip.decode(0x5AB0).unwrap();

    assert_eq!(0x202, chip.pc);
}

#[test]
fn test_5xy0_should_not_skip_instruction() {
    let mut chip = Chip8::new();
    chip.registers[0xA] = 0x41;
    chip.registers[0xB] = 0x42;
    assert_eq!(0x200, chip.pc);

    chip.decode(0x5AB0).unwrap();

    assert_eq!(0x200, chip.pc);
}

#[test]
fn test_9xy0_should_skip_instruction() {
    let mut chip = Chip8::new();
    chip.registers[0xA] = 0x41;
    chip.registers[0xB] = 0x42;
    assert_eq!(0x200, chip.pc);

    chip.decode(0x9AB0).unwrap();

    assert_eq!(0x202, chip.pc);
}

#[test]
fn test_9xy0_should_not_skip_instruction() {
    let mut chip = Chip8::new();
    chip.registers[0xA] = 0x41;
    chip.registers[0xB] = 0x41;
    assert_eq!(0x200, chip.pc);

    chip.decode(0x9AB0).unwrap();

    assert_eq!(0x200, chip.pc);
}

#[test]
fn test_8xy0_should_copy_vy_to_vx() {
    let mut chip = Chip8::new();
    chip.registers[0x5] = 8;
    chip.registers[0xA] = 16;
    assert_eq!(8, chip.registers[0x5]);
    assert_eq!(16, chip.registers[0xA]);

    chip.decode(0x85A0).unwrap();
    assert_eq!(16, chip.registers[0x5]);
    assert_eq!(16, chip.registers[0xA]);
}

#[test]
fn test_8xy1_vx_or_vy() {
    let mut chip = Chip8::new();
    chip.registers[0x5] = 0b0001_1100;
    chip.registers[0xA] = 0b1011_0001;

    chip.decode(0x85A1).unwrap();
    assert_eq!(0b1011_1101, chip.registers[0x5]);
    assert_eq!(0b1011_0001, chip.registers[0xA]);
}

#[test]
fn test_8xy2_vx_and_vy() {
    let mut chip = Chip8::new();
    chip.registers[0x5] = 0b0001_1100;
    chip.registers[0xA] = 0b1011_0001;

    chip.decode(0x85A2).unwrap();
    assert_eq!(0b0001_0000, chip.registers[0x5]);
    assert_eq!(0b1011_0001, chip.registers[0xA]);
}

#[test]
fn test_8xy3_vx_xor_vy() {
    let mut chip = Chip8::new();
    chip.registers[0x5] = 0b0001_1100;
    chip.registers[0xA] = 0b1011_0001;

    chip.decode(0x85A3).unwrap();
    assert_eq!(0b1010_1101, chip.registers[0x5]);
    assert_eq!(0b1011_0001, chip.registers[0xA]);
}

#[test]
fn test_8xy4_add_vy_to_vx_no_carry() {
    let mut chip = Chip8::new();
    chip.registers[0x5] = 12;
    chip.registers[0xA] = 30;
    chip.registers[0xF] = 0;

    chip.decode(0x85A4).unwrap();
    assert_eq!(42, chip.registers[0x5]);
    assert_eq!(30, chip.registers[0xA]);
    assert_eq!(0, chip.registers[0xF]);
}

#[test]
fn test_8xy4_add_vy_to_vx_with_carry() {
    let mut chip = Chip8::new();
    chip.registers[0x5] = 8;
    chip.registers[0xA] = 0xFF;
    chip.registers[0xF] = 0;

    chip.decode(0x85A4).unwrap();
    assert_eq!(7, chip.registers[0x5]);
    assert_eq!(0xFF, chip.registers[0xA]);
    assert_eq!(1, chip.registers[0xF]);
}

#[test]
fn test_8xy5_subtract_vy_from_vx_vx_is_bigger() {
    let mut chip = Chip8::new();
    chip.registers[0x5] = 8;
    chip.registers[0xA] = 2;
    chip.registers[0xF] = 0;

    chip.decode(0x85A5).unwrap();
    assert_eq!(6, chip.registers[0x5]);
    assert_eq!(2, chip.registers[0xA]);
    assert_eq!(1, chip.registers[0xF]);
}

#[test]
fn test_8xy5_subtract_vy_from_vx_s_smaller() {
    let mut chip = Chip8::new();
    chip.registers[0x5] = 2;
    chip.registers[0xA] = 8;
    chip.registers[0xF] = 0;

    chip.decode(0x85A5).unwrap();
    assert_eq!(250, chip.registers[0x5]);
    assert_eq!(8, chip.registers[0xA]);
    assert_eq!(0, chip.registers[0xF]);
}

#[test]
fn test_8xy5_subtract_vy_from_vx_vx_and_vy_are_equal() {
    let mut chip = Chip8::new();
    chip.registers[0x5] = 8;
    chip.registers[0xA] = 8;
    chip.registers[0xF] = 0;

    chip.decode(0x85A5).unwrap();
    assert_eq!(0, chip.registers[0x5]);
    assert_eq!(8, chip.registers[0xA]);
    assert_eq!(1, chip.registers[0xF]);
}

#[test]
fn test_8xy6_store_vy_shifted_right_in_vx_lsb_1() {
    let mut chip = Chip8::new();
    chip.registers[0xF] = 0;
    chip.registers[0x5] = 0b1111_0000;
    chip.registers[0x6] = 0b0110_0001;

    chip.decode(0x8566).unwrap();
    assert_eq!(1, chip.registers[0xF]);
    assert_eq!(0b0110_0001, chip.registers[0x6]);
    assert_eq!(0b0011_0000, chip.registers[0x5]);
}

#[test]
fn test_8xy6_store_vy_shifted_right_in_vx_lsb_0() {
    let mut chip = Chip8::new();
    chip.registers[0xF] = 0;
    chip.registers[0x5] = 0b1111_0000;
    chip.registers[0x6] = 0b0110_0000;

    chip.decode(0x8566).unwrap();
    assert_eq!(0, chip.registers[0xF]);
    assert_eq!(0b0110_0000, chip.registers[0x6]);
    assert_eq!(0b0011_0000, chip.registers[0x5]);
}

#[test]
fn test_8xy7_subtract_vx_from_vy_vy_is_bigger() {
    let mut chip = Chip8::new();
    chip.registers[0x5] = 2;
    chip.registers[0xA] = 8;
    chip.registers[0xF] = 0;

    chip.decode(0x85A7).unwrap();
    assert_eq!(6, chip.registers[0x5]);
    assert_eq!(8, chip.registers[0xA]);
    assert_eq!(1, chip.registers[0xF]);
}

#[test]
fn test_8xy7_subtract_vx_from_vy_vy_is_smaller() {
    let mut chip = Chip8::new();
    chip.registers[0x5] = 8;
    chip.registers[0xA] = 2;
    chip.registers[0xF] = 0;

    chip.decode(0x85A7).unwrap();
    assert_eq!(250, chip.registers[0x5]);
    assert_eq!(2, chip.registers[0xA]);
    assert_eq!(0, chip.registers[0xF]);
}

#[test]
fn test_8xy7_subtract_vx_from_vy_vx_and_vy_are_equal() {
    let mut chip = Chip8::new();
    chip.registers[0x5] = 8;
    chip.registers[0xA] = 8;
    chip.registers[0xF] = 0;

    chip.decode(0x85A7).unwrap();
    assert_eq!(0, chip.registers[0x5]);
    assert_eq!(8, chip.registers[0xA]);
    assert_eq!(1, chip.registers[0xF]);
}

#[test]
fn test_8xye_store_vy_shifted_left_in_vx_lsb_1() {
    let mut chip = Chip8::new();
    chip.registers[0xF] = 0;
    chip.registers[0x5] = 0b1111_0000;
    chip.registers[0x6] = 0b0110_0001;

    chip.decode(0x856E).unwrap();
    assert_eq!(1, chip.registers[0xF]);
    assert_eq!(0b0110_0001, chip.registers[0x6]);
    assert_eq!(0b1100_0010, chip.registers[0x5]);
}

#[test]
fn test_8xye_store_vy_shifted_left_in_vx_lsb_0() {
    let mut chip = Chip8::new();
    chip.registers[0xF] = 0;
    chip.registers[0x5] = 0b1111_0000;
    chip.registers[0x6] = 0b0110_0000;

    chip.decode(0x856E).unwrap();
    assert_eq!(0, chip.registers[0xF]);
    assert_eq!(0b0110_0000, chip.registers[0x6]);
    assert_eq!(0b1100_0000, chip.registers[0x5]);
}

#[test]
fn test_bnnn_jump_to_address_plus_v0() {
    let mut chip = Chip8::new();
    chip.registers[0x0] = 5;

    chip.decode(0xB123).unwrap(); // 0x123 = 291
    assert_eq!(296, chip.pc);
}

#[test]
fn test_cxnn_binary_and_random_with_nn_store_in_vx() {
    // the drawn byte itself cannot be predicted, but the mask pins what
    // can survive the AND
    let mut chip = Chip8::new();
    chip.registers[0x0] = 5;

    chip.decode(0xC0FF).unwrap();
    chip.decode(0xC500).unwrap();
    assert_eq!(0, chip.registers[5]);
}

#[test]
fn test_fx07_set_vx_to_delay_timer() {
    let mut chip = Chip8::new();
    chip.delay_timer = 8;

    chip.decode(0xF507).unwrap(); // VX = 5
    assert_eq!(8, chip.registers[5]);
}

#[test]
fn test_fx15_set_delay_timer_to_vx() {
    let mut chip = Chip8::new();
    chip.registers[6] = 8;

    assert_eq!(0, chip.delay_timer);
    chip.decode(0xF615).unwrap(); // VX = 6
    assert_eq!(8, chip.delay_timer);
}

#[test]
fn test_fx18_set_sound_timer_to_vx() {
    let mut chip = Chip8::new();
    chip.registers[6] = 8;

    assert_eq!(0, chip.sound_timer);
    chip.decode(0xF618).unwrap(); // VX = 6
    assert_eq!(8, chip.sound_timer);
}

#[test]
fn test_fx1e_add_vx_to_i() {
    let mut chip = Chip8::new();
    chip.registers[5] = 8;

    chip.decode(0xF51E).unwrap();
    assert_eq!(8, chip.i);
}

#[test]
fn test_fx55_store_registers_in_ram() {
    let mut chip = Chip8::new();
    chip.registers[0] = 8;
    chip.registers[1] = 6;
    chip.registers[2] = 5;
    chip.registers[3] = 7;
    chip.i = 0x4; // RAM start location

    assert_eq!(0, chip.ram[3]);
    assert_eq!(0, chip.ram[4]);
    assert_eq!(0, chip.ram[5]);
    assert_eq!(0, chip.ram[6]);
    assert_eq!(0, chip.ram[7]);
    assert_eq!(0, chip.ram[8]);
    chip.decode(0xF355).unwrap(); // VX = 3, store 0..=3
    assert_eq!(0, chip.ram[3]);
    assert_eq!(8, chip.ram[4]);
    assert_eq!(6, chip.ram[5]);
    assert_eq!(5, chip.ram[6]);
    assert_eq!(7, chip.ram[7]);
    assert_eq!(0, chip.ram[8]);
}

#[test]
fn test_fx65_fill_registers_from_ram() {
    let mut chip = Chip8::new();
    chip.ram[3] = 0;
    chip.ram[4] = 8;
    chip.ram[5] = 6;
    chip.ram[6] = 5;
    chip.ram[7] = 7;
    chip.ram[8] = 0;
    chip.i = 0x4; // RAM start location

    assert_eq!(0, chip.registers[0]);
    assert_eq!(0, chip.registers[1]);
    assert_eq!(0, chip.registers[2]);
    assert_eq!(0, chip.registers[3]);
    assert_eq!(0, chip.registers[4]);
    chip.decode(0xF365).unwrap(); // VX = 3, fill 0..=3
    assert_eq!(8, chip.registers[0]);
    assert_eq!(6, chip.registers[1]);
    assert_eq!(5, chip.registers[2]);
    assert_eq!(7, chip.registers[3]);
    assert_eq!(0, chip.registers[4]);
}

#[test]
fn test_fx29_set_i_to_location_of_sprite_in_vx() {
    let mut chip = Chip8::new();

    chip.registers[5] = 0x0; // character `0` starts at 0x50 (80)
    chip.decode(0xF529).unwrap();
    assert_eq!(0x50, chip.i);

    chip.registers[6] = 0xA; // character `A` starts at 0x82 (130)
    chip.decode(0xF629).unwrap();
    assert_eq!(0x82, chip.i);
}

#[test]
fn test_fx33_binary_code_decimal_stored_in_vx() {
    let mut chip = Chip8::new();
    chip.registers[5] = 123;

    assert_eq!(0, chip.ram[chip.i as usize]);
    assert_eq!(0, chip.ram[chip.i as usize + 1]);
    assert_eq!(0, chip.ram[chip.i as usize + 2]);
    chip.decode(0xF533).unwrap();
    assert_eq!(1, chip.ram[chip.i as usize]);
    assert_eq!(2, chip.ram[chip.i as usize + 1]);
    assert_eq!(3, chip.ram[chip.i as usize + 2]);
}

#[test]
fn test_ex9e_skip_if_vx_button_is_pressed() {
    let mut chip = Chip8::new();
    chip.registers[5] = 0x2;

    let pc = chip.pc;
    chip.keypad[0x2] = false; // simulate that key is not pressed
    chip.decode(0xE59E).unwrap();
    assert_eq!(pc, chip.pc); // pc is incremented in tick, not decode

    let pc = chip.pc;
    chip.keypad[0x2] = true; // simulate that key is pressed
    chip.decode(0xE59E).unwrap();
    assert_eq!(pc + 2, chip.pc);
}

#[test]
fn test_exa1_skip_if_vx_button_is_not_pressed() {
    let mut chip = Chip8::new();
    chip.registers[5] = 0x2;

    let pc = chip.pc;
    chip.keypad[0x2] = true; // simulate that key is pressed
    chip.decode(0xE5A1).unwrap();
    assert_eq!(pc, chip.pc); // pc is incremented in tick, not decode

    let pc = chip.pc;
    chip.keypad[0x2] = false; // simulate that key is not pressed
    chip.decode(0xE5A1).unwrap();
    assert_eq!(pc + 2, chip.pc);
}

#[test]
fn test_fx0a_wait_for_key_to_be_pressed() {
    let mut chip = Chip8::new();
    chip.registers[5] = 0x2;
    chip.keypad[0x2] = false; // simulate that key is not pressed
    chip.ram[0x200] = 0xF5;
    chip.ram[0x200 + 1] = 0x0A;

    assert_eq!(0x200, chip.pc);
    chip.tick().unwrap();
    assert_eq!(0x200, chip.pc);
    chip.tick().unwrap();
    assert_eq!(0x200, chip.pc);
    chip.tick().unwrap();
    assert_eq!(0x200, chip.pc);

    chip.keypad[0x2] = true; // simulate that key is pressed
    chip.tick().unwrap();
    assert_eq!(0x200 + 2, chip.pc);
}
