use nes_core::bus::MemLocation;
use nes_core::console::Console;
use nes_core::console::Game;

/// A console whose program memory holds `program` at `start`, switched on
/// and about to execute its first byte. The interrupt vector points at
/// `0x9000`, where an `RTI` waits.
fn console_at(start: u16, program: &[u8]) -> Console {
    let mut program_rom = [0u8; 0x8000];
    let offset = (start - 0x8000) as usize;
    program_rom[offset..offset + program.len()].copy_from_slice(program);
    program_rom[0x1000] = 0x40;
    program_rom[0x7ffc] = (start & 0xff) as u8;
    program_rom[0x7ffd] = (start >> 8) as u8;
    program_rom[0x7ffe] = 0x00;
    program_rom[0x7fff] = 0x90;
    Console::new(Game { program_rom, character_rom: [0u8; 0x2000] })
}

/// A console that has run the first `steps` instructions of `program`.
fn after(steps: usize, program: &[u8]) -> Console {
    let mut console = console_at(0x8000, program);
    assert_eq!(console.run_steps(steps), Ok(()));
    console
}

fn ram(console: &mut Console, addr: u16) -> u8 {
    console.cpu.bus.read(MemLocation(addr))
}

#[test]
fn lda_sets_zero_and_negative() {
    let c = after(1, &[0xa9, 0x00]);
    assert_eq!(c.cpu.status.bits(), 0x22);
    let c = after(1, &[0xa9, 0x80]);
    assert_eq!(c.cpu.accumulator, 0x80);
    assert_eq!(c.cpu.status.bits(), 0xa0);
    let c = after(1, &[0xa9, 0x7f]);
    assert_eq!(c.cpu.status.bits(), 0x20);
    assert_eq!(c.cpu.pc, 0x8002);
}

#[test]
fn ldx_and_ldy_load_their_registers() {
    let c = after(2, &[0xa2, 0x81, 0xa0, 0x00]);
    assert_eq!(c.cpu.x, 0x81);
    assert_eq!(c.cpu.y, 0x00);
    assert_eq!(c.cpu.accumulator, 0x00);
    assert_eq!(c.cpu.status.bits(), 0x22);
}

#[test]
fn adc_signed_overflow() {
    // LDA #$50; ADC #$50
    let c = after(2, &[0xa9, 0x50, 0x69, 0x50]);
    assert_eq!(c.cpu.accumulator, 0xa0);
    assert!(c.cpu.status.get_overflow());
    assert!(!c.cpu.status.get_carry());
    assert!(c.cpu.status.get_negative());
    assert!(!c.cpu.status.get_zero());
    // LDA #$80; ADC #$80
    let c = after(2, &[0xa9, 0x80, 0x69, 0x80]);
    assert_eq!(c.cpu.accumulator, 0x00);
    assert_eq!(c.cpu.status.bits(), 0x20 | 0x01 | 0x02 | 0x40);
    // LDA #$50; ADC #$10: no overflow
    let c = after(2, &[0xa9, 0x50, 0x69, 0x10]);
    assert_eq!(c.cpu.accumulator, 0x60);
    assert_eq!(c.cpu.status.bits(), 0x20);
    // LDA #$D0; ADC #$90: both negative, result positive
    let c = after(2, &[0xa9, 0xd0, 0x69, 0x90]);
    assert_eq!(c.cpu.accumulator, 0x60);
    assert_eq!(c.cpu.status.bits(), 0x20 | 0x01 | 0x40);
}

#[test]
fn adc_adds_the_carry() {
    // SEC; LDA #$01; ADC #$01
    let c = after(3, &[0x38, 0xa9, 0x01, 0x69, 0x01]);
    assert_eq!(c.cpu.accumulator, 0x03);
    assert!(!c.cpu.status.get_carry());
    // SEC; LDA #$FF; ADC #$FF
    let c = after(3, &[0x38, 0xa9, 0xff, 0x69, 0xff]);
    assert_eq!(c.cpu.accumulator, 0xff);
    assert_eq!(c.cpu.status.bits(), 0x20 | 0x01 | 0x80);
}

#[test]
fn adc_ignores_decimal_mode() {
    // SED; LDA #$09; ADC #$01
    let c = after(3, &[0xf8, 0xa9, 0x09, 0x69, 0x01]);
    assert_eq!(c.cpu.accumulator, 0x0a);
    assert!(c.cpu.status.get_decimal());
}

#[test]
fn sbc_without_borrow() {
    // SEC; LDA #$50; SBC #$F0
    let c = after(3, &[0x38, 0xa9, 0x50, 0xe9, 0xf0]);
    assert_eq!(c.cpu.accumulator, 0x60);
    assert_eq!(c.cpu.status.bits(), 0x20);
    // SEC; LDA #$50; SBC #$B0
    let c = after(3, &[0x38, 0xa9, 0x50, 0xe9, 0xb0]);
    assert_eq!(c.cpu.accumulator, 0xa0);
    assert_eq!(c.cpu.status.bits(), 0x20 | 0x40 | 0x80);
    // SEC; LDA #$05; SBC #$05
    let c = after(3, &[0x38, 0xa9, 0x05, 0xe9, 0x05]);
    assert_eq!(c.cpu.accumulator, 0x00);
    assert_eq!(c.cpu.status.bits(), 0x20 | 0x01 | 0x02);
    // SEC; LDA #$80; SBC #$01: negative minus positive gives positive
    let c = after(3, &[0x38, 0xa9, 0x80, 0xe9, 0x01]);
    assert_eq!(c.cpu.accumulator, 0x7f);
    assert_eq!(c.cpu.status.bits(), 0x20 | 0x01 | 0x40);
}

#[test]
fn sbc_with_borrow() {
    // carry clear: LDA #$05; SBC #$03
    let c = after(2, &[0xa9, 0x05, 0xe9, 0x03]);
    assert_eq!(c.cpu.accumulator, 0x01);
    assert_eq!(c.cpu.status.bits(), 0x20 | 0x01);
    // carry clear: LDA #$00; SBC #$00 wraps
    let c = after(2, &[0xa9, 0x00, 0xe9, 0x00]);
    assert_eq!(c.cpu.accumulator, 0xff);
    assert_eq!(c.cpu.status.bits(), 0x20 | 0x80);
    // carry clear: LDA #$00; SBC #$FF
    let c = after(2, &[0xa9, 0x00, 0xe9, 0xff]);
    assert_eq!(c.cpu.accumulator, 0x00);
    assert_eq!(c.cpu.status.bits(), 0x20 | 0x02);
}

#[test]
fn compare_accumulator() {
    // LDA #$40; CMP #$30
    let c = after(2, &[0xa9, 0x40, 0xc9, 0x30]);
    assert_eq!(c.cpu.accumulator, 0x40);
    assert_eq!(c.cpu.status.bits(), 0x20 | 0x01);
    // LDA #$40; CMP #$40
    let c = after(2, &[0xa9, 0x40, 0xc9, 0x40]);
    assert_eq!(c.cpu.status.bits(), 0x20 | 0x01 | 0x02);
    // LDA #$40; CMP #$50
    let c = after(2, &[0xa9, 0x40, 0xc9, 0x50]);
    assert_eq!(c.cpu.status.bits(), 0x20 | 0x80);
    // LDA #$80; CMP #$01: N is bit 7 of the difference, not of the operand
    let c = after(2, &[0xa9, 0x80, 0xc9, 0x01]);
    assert_eq!(c.cpu.status.bits(), 0x20 | 0x01);
    // LDA #$01; CMP #$80
    let c = after(2, &[0xa9, 0x01, 0xc9, 0x80]);
    assert_eq!(c.cpu.status.bits(), 0x20 | 0x80);
}

#[test]
fn compare_index_registers() {
    // LDX #$10; CPX #$10
    let c = after(2, &[0xa2, 0x10, 0xe0, 0x10]);
    assert_eq!(c.cpu.status.bits(), 0x20 | 0x01 | 0x02);
    // LDY #$10; CPY #$11
    let c = after(2, &[0xa0, 0x10, 0xc0, 0x11]);
    assert_eq!(c.cpu.status.bits(), 0x20 | 0x80);
    // LDY #$10; LDX #$20; CPX #$10 compares X, not Y
    let c = after(3, &[0xa0, 0x10, 0xa2, 0x20, 0xe0, 0x10]);
    assert_eq!(c.cpu.status.bits(), 0x20 | 0x01);
}

#[test]
fn logic_instructions() {
    // LDA #$F0; AND #$3C
    let c = after(2, &[0xa9, 0xf0, 0x29, 0x3c]);
    assert_eq!(c.cpu.accumulator, 0x30);
    assert_eq!(c.cpu.status.bits(), 0x20);
    // LDA #$F0; AND #$0F
    let c = after(2, &[0xa9, 0xf0, 0x29, 0x0f]);
    assert_eq!(c.cpu.accumulator, 0x00);
    assert_eq!(c.cpu.status.bits(), 0x22);
    // LDA #$01; ORA #$80
    let c = after(2, &[0xa9, 0x01, 0x09, 0x80]);
    assert_eq!(c.cpu.accumulator, 0x81);
    assert_eq!(c.cpu.status.bits(), 0xa0);
    // LDA #$FF; EOR #$0F
    let c = after(2, &[0xa9, 0xff, 0x49, 0x0f]);
    assert_eq!(c.cpu.accumulator, 0xf0);
    assert_eq!(c.cpu.status.bits(), 0xa0);
    // LDA #$55; EOR #$55
    let c = after(2, &[0xa9, 0x55, 0x49, 0x55]);
    assert_eq!(c.cpu.accumulator, 0x00);
    assert_eq!(c.cpu.status.bits(), 0x22);
}

#[test]
fn bit_test_takes_v_and_n_from_memory() {
    // LDA #$C0; STA $10; LDA #$01; BIT $10
    let c = after(4, &[0xa9, 0xc0, 0x85, 0x10, 0xa9, 0x01, 0x24, 0x10]);
    assert_eq!(c.cpu.accumulator, 0x01);
    assert_eq!(c.cpu.status.bits(), 0x20 | 0x02 | 0x40 | 0x80);
    // LDA #$41; STA $0210; BIT $0210
    let c = after(3, &[0xa9, 0x41, 0x8d, 0x10, 0x02, 0x2c, 0x10, 0x02]);
    assert_eq!(c.cpu.status.bits(), 0x20 | 0x40);
    // LDA #$80; STA $10; LDA #$FF; BIT $10: bit 6 clear means V clear
    let c = after(4, &[0xa9, 0x80, 0x85, 0x10, 0xa9, 0xff, 0x24, 0x10]);
    assert_eq!(c.cpu.status.bits(), 0x20 | 0x80);
}

#[test]
fn shifts_of_the_accumulator() {
    // LDA #$01; LSR A
    let c = after(2, &[0xa9, 0x01, 0x4a]);
    assert_eq!(c.cpu.accumulator, 0x00);
    assert_eq!(c.cpu.status.bits(), 0x20 | 0x01 | 0x02);
    // LDA #$FE; LSR A
    let c = after(2, &[0xa9, 0xfe, 0x4a]);
    assert_eq!(c.cpu.accumulator, 0x7f);
    assert_eq!(c.cpu.status.bits(), 0x20);
    // LDA #$41; ASL A
    let c = after(2, &[0xa9, 0x41, 0x0a]);
    assert_eq!(c.cpu.accumulator, 0x82);
    assert_eq!(c.cpu.status.bits(), 0x20 | 0x80);
    // SEC; LDA #$01; ASL A: the carry does not enter a shift
    let c = after(3, &[0x38, 0xa9, 0x01, 0x0a]);
    assert_eq!(c.cpu.accumulator, 0x02);
    assert_eq!(c.cpu.status.bits(), 0x20);
}

#[test]
fn rotations_of_the_accumulator() {
    // SEC; LDA #$80; ROL A
    let c = after(3, &[0x38, 0xa9, 0x80, 0x2a]);
    assert_eq!(c.cpu.accumulator, 0x01);
    assert_eq!(c.cpu.status.bits(), 0x20 | 0x01);
    // LDA #$80; ROL A with carry clear
    let c = after(2, &[0xa9, 0x80, 0x2a]);
    assert_eq!(c.cpu.accumulator, 0x00);
    assert_eq!(c.cpu.status.bits(), 0x20 | 0x01 | 0x02);
    // SEC; LDA #$01; ROR A
    let c = after(3, &[0x38, 0xa9, 0x01, 0x6a]);
    assert_eq!(c.cpu.accumulator, 0x80);
    assert_eq!(c.cpu.status.bits(), 0x20 | 0x01 | 0x80);
    // LDA #$02; ROR A with carry clear
    let c = after(2, &[0xa9, 0x02, 0x6a]);
    assert_eq!(c.cpu.accumulator, 0x01);
    assert_eq!(c.cpu.status.bits(), 0x20);
    // SEC; LDA #$40; ROL A
    let c = after(3, &[0x38, 0xa9, 0x40, 0x2a]);
    assert_eq!(c.cpu.accumulator, 0x81);
    assert_eq!(c.cpu.status.bits(), 0x20 | 0x80);
}

#[test]
fn shifts_and_rotations_of_memory() {
    // LDA #$40; STA $10; LDA #$00; ROL $10: flags follow the byte in memory
    let mut c = after(4, &[0xa9, 0x40, 0x85, 0x10, 0xa9, 0x00, 0x26, 0x10]);
    assert_eq!(ram(&mut c, 0x10), 0x80);
    assert_eq!(c.cpu.accumulator, 0x00);
    assert_eq!(c.cpu.status.bits(), 0x20 | 0x80);
    // LDA #$81; STA $10; ASL $10
    let mut c = after(3, &[0xa9, 0x81, 0x85, 0x10, 0x06, 0x10]);
    assert_eq!(ram(&mut c, 0x10), 0x02);
    assert_eq!(c.cpu.accumulator, 0x81);
    assert_eq!(c.cpu.status.bits(), 0x20 | 0x01);
    // LDA #$01; STA $0300; LSR $0300
    let mut c = after(3, &[0xa9, 0x01, 0x8d, 0x00, 0x03, 0x4e, 0x00, 0x03]);
    assert_eq!(ram(&mut c, 0x0300), 0x00);
    assert_eq!(c.cpu.status.bits(), 0x20 | 0x01 | 0x02);
    // SEC; LDA #$02; STA $10; ROR $10
    let mut c = after(4, &[0x38, 0xa9, 0x02, 0x85, 0x10, 0x66, 0x10]);
    assert_eq!(ram(&mut c, 0x10), 0x81);
    assert_eq!(c.cpu.status.bits(), 0x20 | 0x80);
}

#[test]
fn increments_and_decrements_wrap() {
    // LDA #$FF; STA $10; INC $10
    let mut c = after(3, &[0xa9, 0xff, 0x85, 0x10, 0xe6, 0x10]);
    assert_eq!(ram(&mut c, 0x10), 0x00);
    assert_eq!(c.cpu.status.bits(), 0x22);
    // DEC $10 on zeroed memory
    let mut c = after(1, &[0xc6, 0x10]);
    assert_eq!(ram(&mut c, 0x10), 0xff);
    assert_eq!(c.cpu.status.bits(), 0xa0);
    // INC $0203 (absolute), twice
    let mut c = after(2, &[0xee, 0x03, 0x02, 0xee, 0x03, 0x02]);
    assert_eq!(ram(&mut c, 0x0203), 0x02);
    assert_eq!(c.cpu.status.bits(), 0x20);
    // LDX #$FF; INX
    let c = after(2, &[0xa2, 0xff, 0xe8]);
    assert_eq!(c.cpu.x, 0x00);
    assert_eq!(c.cpu.status.bits(), 0x22);
    // DEX from zero
    let c = after(1, &[0xca]);
    assert_eq!(c.cpu.x, 0xff);
    assert_eq!(c.cpu.status.bits(), 0xa0);
    // LDY #$7F; INY
    let c = after(2, &[0xa0, 0x7f, 0xc8]);
    assert_eq!(c.cpu.y, 0x80);
    assert_eq!(c.cpu.status.bits(), 0xa0);
    // LDY #$01; DEY
    let c = after(2, &[0xa0, 0x01, 0x88]);
    assert_eq!(c.cpu.y, 0x00);
    assert_eq!(c.cpu.status.bits(), 0x22);
}

#[test]
fn inc_absolute_x_uses_the_index() {
    // LDX #$05; INC $0200,X
    let mut c = after(2, &[0xa2, 0x05, 0xfe, 0x00, 0x02]);
    assert_eq!(ram(&mut c, 0x0205), 0x01);
    assert_eq!(ram(&mut c, 0x0200), 0x00);
    assert_eq!(c.cpu.pc, 0x8005);
}

#[test]
fn transfers_set_zero_and_negative() {
    // LDA #$80; TAX; TAY
    let c = after(3, &[0xa9, 0x80, 0xaa, 0xa8]);
    assert_eq!(c.cpu.x, 0x80);
    assert_eq!(c.cpu.y, 0x80);
    assert_eq!(c.cpu.status.bits(), 0xa0);
    // LDX #$00; LDA #$01; TXA
    let c = after(3, &[0xa2, 0x00, 0xa9, 0x01, 0x8a]);
    assert_eq!(c.cpu.accumulator, 0x00);
    assert_eq!(c.cpu.status.bits(), 0x22);
    // LDY #$90; LDA #$01; TYA
    let c = after(3, &[0xa0, 0x90, 0xa9, 0x01, 0x98]);
    assert_eq!(c.cpu.accumulator, 0x90);
    assert_eq!(c.cpu.status.bits(), 0xa0);
    // TSX after reset
    let c = after(1, &[0xba]);
    assert_eq!(c.cpu.x, 0xfd);
    assert_eq!(c.cpu.status.bits(), 0xa0);
}

#[test]
fn txs_leaves_the_flags_alone() {
    // LDX #$00; LDA #$01; TXS
    let c = after(3, &[0xa2, 0x00, 0xa9, 0x01, 0x9a]);
    assert_eq!(c.cpu.stack_pointer, 0x00);
    assert_eq!(c.cpu.status.bits(), 0x20);
    // LDX #$80; LDA #$00; TXS
    let c = after(3, &[0xa2, 0x80, 0xa9, 0x00, 0x9a]);
    assert_eq!(c.cpu.stack_pointer, 0x80);
    assert_eq!(c.cpu.status.bits(), 0x22);
}

#[test]
fn stores_change_no_flag() {
    // LDA #$00; STA $10; LDX #$80; STX $11; LDY #$01; STY $12
    let mut c = after(2, &[0xa9, 0x00, 0x85, 0x10]);
    assert_eq!(c.cpu.status.bits(), 0x22);
    assert_eq!(ram(&mut c, 0x10), 0x00);
    let mut c = after(4, &[0xa2, 0x80, 0x86, 0x11, 0xa0, 0x01, 0x84, 0x12]);
    assert_eq!(ram(&mut c, 0x11), 0x80);
    assert_eq!(ram(&mut c, 0x12), 0x01);
    assert_eq!(c.cpu.status.bits(), 0x20);
}

#[test]
fn push_and_pull_the_accumulator() {
    // LDA #$AB; PHA; LDA #$00; PLA
    let mut c = after(2, &[0xa9, 0xab, 0x48, 0xa9, 0x00, 0x68]);
    assert_eq!(c.cpu.stack_pointer, 0xfc);
    assert_eq!(ram(&mut c, 0x01fd), 0xab);
    assert_eq!(c.run_steps(2), Ok(()));
    assert_eq!(c.cpu.accumulator, 0xab);
    assert_eq!(c.cpu.stack_pointer, 0xfd);
    assert_eq!(c.cpu.status.bits(), 0xa0);
}

#[test]
fn nested_pushes_come_back_in_reverse() {
    // LDA #$01; PHA; LDA #$02; PHA; LDA #$03; PHA; PLA; TAX; PLA; TAY; PLA
    let c = after(
        11,
        &[0xa9, 0x01, 0x48, 0xa9, 0x02, 0x48, 0xa9, 0x03, 0x48, 0x68, 0xaa, 0x68, 0xa8, 0x68],
    );
    assert_eq!(c.cpu.x, 0x03);
    assert_eq!(c.cpu.y, 0x02);
    assert_eq!(c.cpu.accumulator, 0x01);
    assert_eq!(c.cpu.stack_pointer, 0xfd);
}

#[test]
fn stack_pointer_wraps_in_page_one() {
    // LDX #$00; TXS; LDA #$77; PHA
    let mut c = after(4, &[0xa2, 0x00, 0x9a, 0xa9, 0x77, 0x48, 0x68]);
    assert_eq!(c.cpu.stack_pointer, 0xff);
    assert_eq!(ram(&mut c, 0x0100), 0x77);
    assert_eq!(c.run_steps(1), Ok(()));
    assert_eq!(c.cpu.stack_pointer, 0x00);
    assert_eq!(c.cpu.accumulator, 0x77);
}

#[test]
fn the_stack_page_holds_256_bytes() {
    // LDA #$11; PHA; then LDA #$22 and 256 times PHA; then PLA
    let mut program = vec![0xa9, 0x11, 0x48, 0xa9, 0x22];
    program.extend(std::iter::repeat(0x48).take(256));
    program.push(0x68);
    let mut c = after(3 + 256, &program);
    assert_eq!(c.cpu.stack_pointer, 0xfc);
    // the first byte pushed has been overwritten by the last
    assert_eq!(ram(&mut c, 0x01fd), 0x22);
    assert_eq!(c.run_steps(1), Ok(()));
    assert_eq!(c.cpu.accumulator, 0x22);
    assert_eq!(c.cpu.stack_pointer, 0xfd);
}

#[test]
fn push_and_pull_the_status() {
    // SEC; SED; PHP; CLC; CLD; PLP
    let mut c = after(3, &[0x38, 0xf8, 0x08, 0x18, 0xd8, 0x28]);
    assert_eq!(ram(&mut c, 0x01fd), 0x29);
    assert_eq!(c.run_steps(2), Ok(()));
    assert_eq!(c.cpu.status.bits(), 0x20);
    assert_eq!(c.run_steps(1), Ok(()));
    assert_eq!(c.cpu.status.bits(), 0x29);
    assert_eq!(c.cpu.stack_pointer, 0xfd);
}

#[test]
fn plp_forces_bit_five_and_masks_break() {
    // LDA #$FF; PHA; PLP
    let c = after(3, &[0xa9, 0xff, 0x48, 0x28]);
    assert_eq!(c.cpu.status.bits(), 0xef);
    // LDA #$00; PHA; PLP
    let c = after(3, &[0xa9, 0x00, 0x48, 0x28]);
    assert_eq!(c.cpu.status.bits(), 0x20);
}

#[test]
fn flag_instructions() {
    let c = after(1, &[0x38]);
    assert_eq!(c.cpu.status.bits(), 0x21);
    let c = after(2, &[0x38, 0x18]);
    assert_eq!(c.cpu.status.bits(), 0x20);
    let c = after(1, &[0xf8]);
    assert_eq!(c.cpu.status.bits(), 0x28);
    let c = after(2, &[0xf8, 0xd8]);
    assert_eq!(c.cpu.status.bits(), 0x20);
    let c = after(1, &[0x78]);
    assert_eq!(c.cpu.status.bits(), 0x24);
    let c = after(2, &[0x78, 0x58]);
    assert_eq!(c.cpu.status.bits(), 0x20);
    // LDA #$50; ADC #$50 sets V and N; CLV clears V only
    let c = after(3, &[0xa9, 0x50, 0x69, 0x50, 0xb8]);
    assert_eq!(c.cpu.status.bits(), 0xa0);
}

#[test]
fn nop_does_nothing_but_advance() {
    let c = after(1, &[0xea]);
    assert_eq!(c.cpu.pc, 0x8001);
    assert_eq!(c.cpu.status.bits(), 0x20);
    assert_eq!(c.cpu.accumulator, 0);
    assert_eq!(c.cpu.stack_pointer, 0xfd);
    assert_eq!(c.cpu.cycles, 2);
}

#[test]
fn branches_taken_and_not_taken() {
    // each: the branch with its flag as reset leaves it, then with the flag flipped
    // BCC +2 taken; SEC; BCC not taken
    assert_eq!(after(1, &[0x90, 0x02]).cpu.pc, 0x8004);
    assert_eq!(after(2, &[0x38, 0x90, 0x02]).cpu.pc, 0x8003);
    // BCS not taken; SEC; BCS taken
    assert_eq!(after(1, &[0xb0, 0x02]).cpu.pc, 0x8002);
    assert_eq!(after(2, &[0x38, 0xb0, 0x02]).cpu.pc, 0x8005);
    // BNE taken; LDA #$00; BNE not taken
    assert_eq!(after(1, &[0xd0, 0x02]).cpu.pc, 0x8004);
    assert_eq!(after(2, &[0xa9, 0x00, 0xd0, 0x02]).cpu.pc, 0x8004);
    // BEQ not taken; LDA #$00; BEQ taken
    assert_eq!(after(1, &[0xf0, 0x02]).cpu.pc, 0x8002);
    assert_eq!(after(2, &[0xa9, 0x00, 0xf0, 0x02]).cpu.pc, 0x8006);
    // BPL taken; LDA #$80; BPL not taken
    assert_eq!(after(1, &[0x10, 0x02]).cpu.pc, 0x8004);
    assert_eq!(after(2, &[0xa9, 0x80, 0x10, 0x02]).cpu.pc, 0x8004);
    // BMI not taken; LDA #$80; BMI taken
    assert_eq!(after(1, &[0x30, 0x02]).cpu.pc, 0x8002);
    assert_eq!(after(2, &[0xa9, 0x80, 0x30, 0x02]).cpu.pc, 0x8006);
    // BVC taken; LDA #$50; ADC #$50; BVC not taken
    assert_eq!(after(1, &[0x50, 0x02]).cpu.pc, 0x8004);
    assert_eq!(after(3, &[0xa9, 0x50, 0x69, 0x50, 0x50, 0x02]).cpu.pc, 0x8006);
    // BVS not taken; LDA #$50; ADC #$50; BVS taken
    assert_eq!(after(1, &[0x70, 0x02]).cpu.pc, 0x8002);
    assert_eq!(after(3, &[0xa9, 0x50, 0x69, 0x50, 0x70, 0x02]).cpu.pc, 0x8008);
}

#[test]
fn branch_displacement_is_signed() {
    // NOP; NOP; BNE -4
    let c = after(3, &[0xea, 0xea, 0xd0, 0xfc]);
    assert_eq!(c.cpu.pc, 0x8000);
    // BNE +127
    let c = after(1, &[0xd0, 0x7f]);
    assert_eq!(c.cpu.pc, 0x8081);
    // BNE -128
    let mut c = console_at(0x8100, &[0xd0, 0x80]);
    assert_eq!(c.run_steps(1), Ok(()));
    assert_eq!(c.cpu.pc, 0x8082);
    // a branch does not touch the flags
    assert_eq!(c.cpu.status.bits(), 0x20);
}

#[test]
fn branch_cycles() {
    // not taken: 2
    assert_eq!(after(1, &[0xb0, 0x02]).cpu.cycles, 2);
    // taken within the page: 3
    assert_eq!(after(1, &[0x90, 0x02]).cpu.cycles, 3);
    // taken into the next page: 4
    let mut c = console_at(0x80fd, &[0x90, 0x01]);
    assert_eq!(c.run_steps(1), Ok(()));
    assert_eq!(c.cpu.pc, 0x8100);
    assert_eq!(c.cpu.cycles, 4);
    // taken backwards into the previous page: 4
    let mut c = console_at(0x8100, &[0x90, 0xfd]);
    assert_eq!(c.run_steps(1), Ok(()));
    assert_eq!(c.cpu.pc, 0x80ff);
    assert_eq!(c.cpu.cycles, 4);
}

#[test]
fn page_crossing_costs_a_cycle_on_reads() {
    // LDX #$01; LDA $80FF,X
    let c = after(2, &[0xa2, 0x01, 0xbd, 0xff, 0x80]);
    assert_eq!(c.cpu.cycles, 2 + 5);
    // LDX #$01; LDA $8010,X
    let c = after(2, &[0xa2, 0x01, 0xbd, 0x10, 0x80]);
    assert_eq!(c.cpu.cycles, 2 + 4);
    // LDY #$01; LDA $80FF,Y
    let c = after(2, &[0xa0, 0x01, 0xb9, 0xff, 0x80]);
    assert_eq!(c.cpu.cycles, 2 + 5);
    // LDX #$01; STA $02FF,X: a store always takes 5
    let c = after(2, &[0xa2, 0x01, 0x9d, 0xff, 0x02]);
    assert_eq!(c.cpu.cycles, 2 + 5);
    let c = after(2, &[0xa2, 0x01, 0x9d, 0x10, 0x02]);
    assert_eq!(c.cpu.cycles, 2 + 5);
}

#[test]
fn cycle_counts_of_common_instructions() {
    // LDA #$05 (2); STA $10 (3); LDA $10 (3); BRK (7)
    let mut c = after(1, &[0xa9, 0x05, 0x85, 0x10, 0xa5, 0x10, 0x00]);
    assert_eq!(c.cpu.cycles, 2);
    assert_eq!(c.run_steps(1), Ok(()));
    assert_eq!(c.cpu.cycles, 5);
    assert_eq!(c.run_steps(1), Ok(()));
    assert_eq!(c.cpu.cycles, 8);
    assert_eq!(c.run_steps(1), Ok(()));
    assert_eq!(c.cpu.cycles, 15);
    // JSR (6), RTS (6), PHA (3), PLA (4), JMP (3), JMP indirect (5)
    assert_eq!(after(1, &[0x20, 0x03, 0x80, 0x60]).cpu.cycles, 6);
    assert_eq!(after(2, &[0x20, 0x03, 0x80, 0x60]).cpu.cycles, 12);
    assert_eq!(after(2, &[0x48, 0x68]).cpu.cycles, 7);
    assert_eq!(after(1, &[0x4c, 0x00, 0x80]).cpu.cycles, 3);
    assert_eq!(after(1, &[0x6c, 0x00, 0x80]).cpu.cycles, 5);
}

#[test]
fn zero_page_indexing_wraps_in_page_zero() {
    // LDX #$FF; LDA #$77; STA $80,X
    let mut c = after(3, &[0xa2, 0xff, 0xa9, 0x77, 0x95, 0x80]);
    assert_eq!(ram(&mut c, 0x007f), 0x77);
    assert_eq!(ram(&mut c, 0x017f), 0x00);
    // LDY #$01; LDX #$55; STX $10,Y; LDX #$00; LDX $10,Y
    let mut c = after(5, &[0xa0, 0x01, 0xa2, 0x55, 0x96, 0x10, 0xa2, 0x00, 0xb6, 0x10]);
    assert_eq!(ram(&mut c, 0x0011), 0x55);
    assert_eq!(c.cpu.x, 0x55);
    // LDX #$02; LDY #$66; STY $FF,X
    let mut c = after(3, &[0xa2, 0x02, 0xa0, 0x66, 0x94, 0xff]);
    assert_eq!(ram(&mut c, 0x0001), 0x66);
}

#[test]
fn absolute_indexing() {
    // LDX #$02; LDA #$66; STA $0200,X; LDY #$03; STA $0200,Y
    let mut c = after(5, &[0xa2, 0x02, 0xa9, 0x66, 0x9d, 0x00, 0x02, 0xa0, 0x03, 0x99, 0x00, 0x02]);
    assert_eq!(ram(&mut c, 0x0202), 0x66);
    assert_eq!(ram(&mut c, 0x0203), 0x66);
    assert_eq!(ram(&mut c, 0x0200), 0x00);
    // LDA #$12; STA $00; LDX #$01; LDA #$00; LDA $FFFF,X wraps to address zero
    let c = after(5, &[0xa9, 0x12, 0x85, 0x00, 0xa2, 0x01, 0xa9, 0x00, 0xbd, 0xff, 0xff]);
    assert_eq!(c.cpu.accumulator, 0x12);
    // LDY #$10; LDX $8000,Y reads program memory
    let c = after(2, &[0xa0, 0x03, 0xbe, 0x00, 0x80]);
    assert_eq!(c.cpu.x, 0x00);
    let c = after(2, &[0xa0, 0x02, 0xbe, 0x00, 0x80]);
    assert_eq!(c.cpu.x, 0xbe);
}

#[test]
fn indexed_indirect() {
    // pointer at $24/$25 -> $0300; LDX #$04; LDA #$99; STA ($20,X); LDA #$00; LDA ($20,X)
    let mut c = after(
        9,
        &[
            0xa9, 0x00, 0x85, 0x24, 0xa9, 0x03, 0x85, 0x25, 0xa2, 0x04, 0xa9, 0x99, 0x81, 0x20,
            0xa9, 0x00, 0xa1, 0x20,
        ],
    );
    assert_eq!(ram(&mut c, 0x0300), 0x99);
    assert_eq!(c.cpu.accumulator, 0x99);
    assert_eq!(c.cpu.pc, 0x8012);
}

#[test]
fn indexed_indirect_pointer_wraps_in_page_zero() {
    // pointer low at $FF, high at $00 -> $0400; LDX #$0F; LDA #$5A; STA ($F0,X)
    let mut c = after(
        7,
        &[
            0xa9, 0x00, 0x85, 0xff, 0xa9, 0x04, 0x85, 0x00, 0xa2, 0x0f, 0xa9, 0x5a, 0x81, 0xf0,
        ],
    );
    assert_eq!(ram(&mut c, 0x0400), 0x5a);
    // the index wraps too: LDX #$FF; ($00,X) uses the pointer at $FF
    let mut c = after(
        7,
        &[
            0xa9, 0x00, 0x85, 0xff, 0xa9, 0x04, 0x85, 0x00, 0xa2, 0xff, 0xa9, 0x5b, 0x81, 0x00,
        ],
    );
    assert_eq!(ram(&mut c, 0x0400), 0x5b);
}

#[test]
fn indirect_indexed() {
    // pointer at $30/$31 -> $02FF; LDY #$01; LDA #$44; STA ($30),Y; LDA #$00; LDA ($30),Y
    let mut c = after(
        9,
        &[
            0xa9, 0xff, 0x85, 0x30, 0xa9, 0x02, 0x85, 0x31, 0xa0, 0x01, 0xa9, 0x44, 0x91, 0x30,
            0xa9, 0x00, 0xb1, 0x30,
        ],
    );
    assert_eq!(ram(&mut c, 0x0300), 0x44);
    assert_eq!(c.cpu.accumulator, 0x44);
    // 2+3+2+3+2+2 up to the store, the store 6, LDA # 2, and the load 5 + 1 for the page
    assert_eq!(c.cpu.cycles, 14 + 6 + 2 + 6);
}

#[test]
fn jump_absolute_and_indirect() {
    // JMP $8010
    let c = after(1, &[0x4c, 0x10, 0x80]);
    assert_eq!(c.cpu.pc, 0x8010);
    // LDA #$34; STA $10; LDA #$12; STA $11; JMP ($0010)
    let c = after(5, &[0xa9, 0x34, 0x85, 0x10, 0xa9, 0x12, 0x85, 0x11, 0x6c, 0x10, 0x00]);
    assert_eq!(c.cpu.pc, 0x1234);
    assert_eq!(c.cpu.stack_pointer, 0xfd);
}

#[test]
fn break_pushes_and_vectors() {
    // SEC; BRK
    let mut c = after(2, &[0x38, 0x00]);
    assert_eq!(c.cpu.pc, 0x9000);
    assert_eq!(c.cpu.stack_pointer, 0xfa);
    // the program counter after the opcode fetch, high byte first, then the status with B
    assert_eq!(ram(&mut c, 0x01fd), 0x80);
    assert_eq!(ram(&mut c, 0x01fc), 0x02);
    assert_eq!(ram(&mut c, 0x01fb), 0x20 | 0x10 | 0x01);
    assert_eq!(c.cpu.status.bits(), 0x20 | 0x10 | 0x04 | 0x01);
    assert!(c.cpu.status.get_break());
    assert!(c.cpu.status.get_int_disable());
}

#[test]
fn return_from_interrupt() {
    // SEC; BRK; then the RTI at 0x9000
    let c = after(3, &[0x38, 0x00, 0xea]);
    // the popped address is used as it is
    assert_eq!(c.cpu.pc, 0x8002);
    assert_eq!(c.cpu.stack_pointer, 0xfd);
    // the pulled status has B cleared and bit 5 set
    assert_eq!(c.cpu.status.bits(), 0x20 | 0x01);
}

#[test]
fn step_reports_the_unknown_byte_and_its_address() {
    let mut console = console_at(0x8000, &[0xea, 0xff]);
    assert_eq!(console.cpu.step(), Ok(0xea));
    assert_eq!(
        console.cpu.step(),
        Err(nes_core::model::CpuError::UnknownOpcode { code: 0xff, pc: 0x8001 })
    );
}

#[test]
fn step_returns_the_opcode_byte() {
    let mut console = console_at(0x8000, &[0xa9, 0x01, 0x00]);
    assert_eq!(console.cpu.step(), Ok(0xa9));
    assert_eq!(console.cpu.step(), Ok(0x00));
    assert_eq!(console.cpu.step(), Ok(0x40));
}

#[test]
fn program_counter_wraps_at_the_top() {
    // a NOP at 0xFFFF: the next fetch is at 0x0000
    let mut console = console_at(0x8000, &[0xea]);
    console.cpu.bus.write(MemLocation(0x0000), 0xe8);
    console.cpu.pc = 0xffff;
    // the byte at 0xFFFF is the high byte of the interrupt vector
    console.cpu.bus.write(MemLocation(0xffff), 0xea);
    assert_eq!(console.cpu.bus.read(MemLocation(0xffff)), 0x90);
    assert_eq!(console.cpu.step(), Ok(0x90));
    // 0x90 is BCC: it consumes the byte at 0x0000 as its operand
    assert_eq!(console.cpu.pc, 0x0001u16.wrapping_add(0xe8u8 as i8 as u16));
}

#[test]
fn loads_leave_carry_and_overflow_alone() {
    // LDA #$50; ADC #$50 (V); SEC; LDA #$00; LDX #$80; LDY #$01
    let c = after(6, &[0xa9, 0x50, 0x69, 0x50, 0x38, 0xa9, 0x00, 0xa2, 0x80, 0xa0, 0x01]);
    assert!(c.cpu.status.get_carry());
    assert!(c.cpu.status.get_overflow());
    assert_eq!(c.cpu.status.bits(), 0x20 | 0x01 | 0x40);
}

#[test]
fn bit_five_is_set_after_every_instruction() {
    let program = [
        0xa9, 0xff, 0x48, 0x28, 0x08, 0x68, 0x69, 0x01, 0x0a, 0x2a, 0xc9, 0x10, 0x24, 0x00, 0xb8,
        0x18, 0xd8, 0x58, 0x00,
    ];
    let mut console = console_at(0x8000, &program);
    for _ in 0..20 {
        assert_eq!(console.run_steps(1), Ok(()));
        assert_eq!(console.cpu.status.bits() & 0x20, 0x20);
    }
}

#[test]
fn snapshot_after_reset() {
    let console = console_at(0x8000, &[0xea]);
    assert_eq!(console.cpu.snapshot(), "A: 0, X: 0, Y: 0, S: 00100000, PC: 8000, SP: fd");
}

#[test]
fn snapshot_of_a_running_machine() {
    // LDA #$AB; LDX #$05; LDY #$10; SEC; TXS
    let c = after(5, &[0xa9, 0xab, 0xa2, 0x05, 0xa0, 0x10, 0x38, 0x9a]);
    assert_eq!(c.cpu.snapshot(), "A: ab, X: 5, Y: 10, S: 00100001, PC: 8008, SP: 5");
    let mut c = after(1, &[0xa9, 0x80]);
    c.cpu.pc = 0x000f;
    assert_eq!(c.cpu.snapshot(), "A: 80, X: 0, Y: 0, S: 10100000, PC: f, SP: fd");
}
