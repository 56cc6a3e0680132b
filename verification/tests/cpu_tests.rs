use emulator101::cpu::{Cpu, CpuFlag, Flags};
use emulator101::emulator::Emulator;
use emulator101::memory::MemoryBus;

fn fresh() -> Cpu {
    let mut cpu = Cpu::new();
    cpu.reset();
    cpu
}

fn rom_with(program: &[u8]) -> Vec<u8> {
    let mut rom = vec![0u8; 0x8000];
    rom[0x100..0x100 + program.len()].copy_from_slice(program);
    rom
}

fn flags(cpu: &Cpu) -> (bool, bool, bool, bool) {
    (cpu.f.z, cpu.f.n, cpu.f.h, cpu.f.c)
}

#[test]
fn reset_gives_the_values_after_boot() {
    let cpu = fresh();
    assert_eq!(cpu.get_af(), 0x01B0);
    assert_eq!(cpu.get_bc(), 0x0013);
    assert_eq!(cpu.get_de(), 0x00D8);
    assert_eq!(cpu.get_hl(), 0x014D);
    assert_eq!(cpu.sp, 0xFFFE);
    assert_eq!(cpu.pc, 0x0100);
    assert_eq!(flags(&cpu), (true, false, true, true));
    assert!(!cpu.ime && !cpu.halted && !cpu.pending_ime && !cpu.halt_bug);
    assert_eq!(cpu.cycle_count, 0);
}

#[test]
fn new_cpu_is_all_zero() {
    let cpu = Cpu::new();
    assert_eq!(cpu.get_af(), 0);
    assert_eq!(cpu.get_bc(), 0);
    assert_eq!(cpu.get_de(), 0);
    assert_eq!(cpu.get_hl(), 0);
    assert_eq!(cpu.sp, 0);
    assert_eq!(cpu.pc, 0);
}

#[test]
fn flags_pack_into_the_high_nibble() {
    let f = Flags { z: true, n: false, h: true, c: true };
    assert_eq!(f.to_byte(), 0xB0);
    let mut g = Flags::new();
    assert_eq!(g.to_byte(), 0x00);
    g.from_byte(0x5F);
    assert_eq!(g, Flags { z: false, n: true, h: false, c: true });
    assert_eq!(g.to_byte(), 0x50);
    assert_eq!(CpuFlag::Z.bit(), 0x80);
    assert_eq!(CpuFlag::N.bit(), 0x40);
    assert_eq!(CpuFlag::H.bit(), 0x20);
    assert_eq!(CpuFlag::C.bit(), 0x10);
}

#[test]
fn low_nibble_of_f_stays_zero() {
    let mut cpu = fresh();
    cpu.set_af(0x12FF);
    assert_eq!(cpu.get_af(), 0x12F0);
    assert_eq!(flags(&cpu), (true, true, true, true));
    cpu.set_af(0xAB0F);
    assert_eq!(cpu.get_af(), 0xAB00);
    assert_eq!(flags(&cpu), (false, false, false, false));
    cpu.flag(CpuFlag::H, true);
    assert_eq!(cpu.get_af(), 0xAB20);
    cpu.flag(CpuFlag::Z, true);
    cpu.flag(CpuFlag::H, false);
    assert_eq!(cpu.get_af(), 0xAB80);
}

#[test]
fn eight_bit_registers_are_halves_of_the_pairs() {
    let mut cpu = fresh();
    cpu.set_bc(0x1234);
    assert_eq!((cpu.get_b(), cpu.get_c()), (0x12, 0x34));
    cpu.set_b(0xAB);
    cpu.set_c(0xCD);
    assert_eq!(cpu.get_bc(), 0xABCD);
    cpu.set_de(0x5678);
    assert_eq!((cpu.get_d(), cpu.get_e()), (0x56, 0x78));
    cpu.set_d(0x01);
    cpu.set_e(0x02);
    assert_eq!(cpu.get_de(), 0x0102);
    cpu.set_hl(0x9ABC);
    assert_eq!((cpu.get_h(), cpu.get_l()), (0x9A, 0xBC));
    cpu.set_h(0x03);
    cpu.set_l(0x04);
    assert_eq!(cpu.get_hl(), 0x0304);
    cpu.set_a(0x77);
    assert_eq!(cpu.get_a(), 0x77);
    assert_eq!(cpu.get_af(), 0x77B0);
}

#[test]
fn inc_of_ff_wraps_to_zero_and_leaves_carry() {
    let mut cpu = fresh();
    cpu.set_af(0x0010);
    let r = cpu.inc_r8(0xFF);
    assert_eq!(r, 0x00);
    assert_eq!(flags(&cpu), (true, false, true, true));
    cpu.set_af(0x0000);
    let r = cpu.inc_r8(0xFF);
    assert_eq!(r, 0x00);
    assert_eq!(flags(&cpu), (true, false, true, false));
    let r = cpu.inc_r8(0x0E);
    assert_eq!(r, 0x0F);
    assert_eq!(flags(&cpu), (false, false, false, false));
}

#[test]
fn dec_of_zero_wraps_to_ff() {
    let mut cpu = fresh();
    cpu.set_af(0x0000);
    let r = cpu.dec_r8(0x00);
    assert_eq!(r, 0xFF);
    assert_eq!(flags(&cpu), (false, true, true, false));
    let r = cpu.dec_r8(0x01);
    assert_eq!(r, 0x00);
    assert_eq!(flags(&cpu), (true, true, false, false));
}

#[test]
fn add_a_to_itself_at_0x80() {
    let rom = rom_with(&[0x3E, 0x80, 0x87]);
    let mut emu = Emulator::new(&rom);
    emu.step();
    emu.step();
    assert_eq!(emu.cpu.get_a(), 0x00);
    assert_eq!(flags(&emu.cpu), (true, false, false, true));
}

#[test]
fn add_and_adc_set_half_carry_and_carry() {
    let mut cpu = fresh();
    cpu.set_af(0x0F00);
    cpu.add_r8(0x01, false);
    assert_eq!(cpu.get_a(), 0x10);
    assert_eq!(flags(&cpu), (false, false, true, false));
    cpu.set_af(0xFF10);
    cpu.add_r8(0x00, true);
    assert_eq!(cpu.get_a(), 0x00);
    assert_eq!(flags(&cpu), (true, false, true, true));
    cpu.set_af(0xFF10);
    cpu.add_r8(0x00, false);
    assert_eq!(cpu.get_a(), 0xFF);
    assert_eq!(flags(&cpu), (false, false, false, false));
}

#[test]
fn sub_sbc_and_cp_set_borrows() {
    let mut cpu = fresh();
    cpu.set_af(0x1000);
    cpu.sub_r8(0x01, false);
    assert_eq!(cpu.get_a(), 0x0F);
    assert_eq!(flags(&cpu), (false, true, true, false));
    cpu.set_af(0x0010);
    cpu.sub_r8(0x00, true);
    assert_eq!(cpu.get_a(), 0xFF);
    assert_eq!(flags(&cpu), (false, true, true, true));
    cpu.set_af(0x4200);
    cpu.cp_r8(0x42);
    assert_eq!(cpu.get_a(), 0x42);
    assert_eq!(flags(&cpu), (true, true, false, false));
    cpu.cp_r8(0x43);
    assert_eq!(cpu.get_a(), 0x42);
    assert_eq!(flags(&cpu), (false, true, true, true));
}

#[test]
fn logic_operations_set_their_fixed_flags() {
    let mut cpu = fresh();
    cpu.set_af(0xF0F0);
    cpu.and_r8(0x0F);
    assert_eq!(cpu.get_a(), 0x00);
    assert_eq!(flags(&cpu), (true, false, true, false));
    cpu.set_af(0xF0F0);
    cpu.or_r8(0x0F);
    assert_eq!(cpu.get_a(), 0xFF);
    assert_eq!(flags(&cpu), (false, false, false, false));
    cpu.set_af(0xF0F0);
    cpu.xor_r8(0xFF);
    assert_eq!(cpu.get_a(), 0x0F);
    assert_eq!(flags(&cpu), (false, false, false, false));
}

#[test]
fn xor_a_clears_a_and_sets_only_z() {
    let rom = rom_with(&[0x3E, 0x5A, 0xAF]);
    let mut emu = Emulator::new(&rom);
    emu.step();
    assert_eq!(emu.cpu.get_a(), 0x5A);
    emu.step();
    assert_eq!(emu.cpu.get_a(), 0x00);
    assert_eq!(flags(&emu.cpu), (true, false, false, false));
    assert_eq!(emu.cpu.get_af(), 0x0080);
}

#[test]
fn swap_twice_restores_the_value() {
    let mut cpu = fresh();
    let once = cpu.swap_r8(0xA5);
    assert_eq!(once, 0x5A);
    let twice = cpu.swap_r8(once);
    assert_eq!(twice, 0xA5);
    assert_eq!(flags(&cpu), (false, false, false, false));
    let once = cpu.swap_r8(0x00);
    let twice = cpu.swap_r8(once);
    assert_eq!(twice, 0x00);
    assert_eq!(flags(&cpu), (true, false, false, false));
}

#[test]
fn cpl_twice_restores_a() {
    let rom = rom_with(&[0x3E, 0x35, 0x2F, 0x2F]);
    let mut emu = Emulator::new(&rom);
    emu.step();
    emu.cpu.set_af(0x3500);
    emu.step();
    assert_eq!(emu.cpu.get_a(), 0xCA);
    emu.step();
    assert_eq!(emu.cpu.get_a(), 0x35);
    assert_eq!(flags(&emu.cpu), (false, true, true, false));
}

#[test]
fn ld_hl_sp_plus_offset_at_the_boundary() {
    let rom = rom_with(&[0x31, 0x01, 0x00, 0xF8, 0xFF]);
    let mut emu = Emulator::new(&rom);
    assert_eq!(emu.step(), 3);
    assert_eq!(emu.cpu.sp, 0x0001);
    assert_eq!(emu.step(), 3);
    assert_eq!(emu.cpu.get_hl(), 0x0000);
    assert_eq!(flags(&emu.cpu), (false, false, true, true));
    assert_eq!(emu.cpu.sp, 0x0001);
}

#[test]
fn add_sp_offset_moves_sp_both_ways() {
    let rom = rom_with(&[0x31, 0x00, 0xD0, 0xE8, 0x10, 0xE8, 0xF0]);
    let mut emu = Emulator::new(&rom);
    emu.step();
    assert_eq!(emu.step(), 4);
    assert_eq!(emu.cpu.sp, 0xD010);
    assert_eq!(flags(&emu.cpu), (false, false, false, false));
    assert_eq!(emu.step(), 4);
    assert_eq!(emu.cpu.sp, 0xD000);
    assert_eq!(flags(&emu.cpu), (false, false, false, true));
}

#[test]
fn daa_after_a_decimal_addition() {
    let rom = rom_with(&[0x3E, 0x15, 0xC6, 0x27, 0x27]);
    let mut emu = Emulator::new(&rom);
    emu.step();
    emu.step();
    assert_eq!(emu.cpu.get_a(), 0x3C);
    emu.step();
    assert_eq!(emu.cpu.get_a(), 0x42);
    assert_eq!(flags(&emu.cpu), (false, false, false, false));
}

#[test]
fn daa_after_a_decimal_subtraction_and_a_carry() {
    let mut cpu = fresh();
    cpu.set_af(0x9900);
    cpu.add_r8(0x01, false);
    assert_eq!(cpu.get_a(), 0x9A);
    cpu.daa();
    assert_eq!(cpu.get_a(), 0x00);
    assert_eq!(flags(&cpu), (true, false, false, true));
    cpu.set_af(0x1000);
    cpu.sub_r8(0x01, false);
    assert_eq!(cpu.get_a(), 0x0F);
    cpu.daa();
    assert_eq!(cpu.get_a(), 0x09);
    assert_eq!(flags(&cpu), (false, true, false, false));
}

#[test]
fn add16_sets_carries_of_bits_11_and_15() {
    let mut cpu = fresh();
    cpu.set_af(0x0080);
    cpu.set_hl(0x0FFF);
    cpu.add16(0x0001);
    assert_eq!(cpu.get_hl(), 0x1000);
    assert_eq!(flags(&cpu), (true, false, true, false));
    cpu.set_hl(0xFFFF);
    cpu.add16(0x0001);
    assert_eq!(cpu.get_hl(), 0x0000);
    assert_eq!(flags(&cpu), (true, false, true, true));
    cpu.set_af(0x0000);
    cpu.set_hl(0x8000);
    cpu.add16(0x8000);
    assert_eq!(cpu.get_hl(), 0x0000);
    assert_eq!(flags(&cpu), (false, false, false, true));
}

#[test]
fn rotates_and_shifts() {
    let mut cpu = fresh();
    cpu.set_af(0x0000);
    assert_eq!(cpu.rlc_r8(0x85), 0x0B);
    assert_eq!(flags(&cpu), (false, false, false, true));
    assert_eq!(cpu.rl_r8(0x80), 0x01);
    assert_eq!(flags(&cpu), (false, false, false, true));
    assert_eq!(cpu.rrc_r8(0x01), 0x80);
    assert_eq!(flags(&cpu), (false, false, false, true));
    assert_eq!(cpu.rr_r8(0x00), 0x80);
    assert_eq!(flags(&cpu), (false, false, false, false));
    assert_eq!(cpu.rr_r8(0x01), 0x00);
    assert_eq!(flags(&cpu), (true, false, false, true));
    assert_eq!(cpu.sla_r8(0xC0), 0x80);
    assert_eq!(flags(&cpu), (false, false, false, true));
    assert_eq!(cpu.sra_r8(0x81), 0xC0);
    assert_eq!(flags(&cpu), (false, false, false, true));
    assert_eq!(cpu.srl_r8(0x81), 0x40);
    assert_eq!(flags(&cpu), (false, false, false, true));
    assert_eq!(cpu.srl_r8(0x01), 0x00);
    assert_eq!(flags(&cpu), (true, false, false, true));
    assert_eq!(cpu.rotate(6, 0x12), 0x21);
    assert_eq!(cpu.rotate(0, 0x80), 0x01);
}

#[test]
fn rlca_clears_z_where_rlc_sets_it() {
    let rom = rom_with(&[0x3E, 0x00, 0x07, 0xCB, 0x07]);
    let mut emu = Emulator::new(&rom);
    emu.step();
    assert_eq!(emu.step(), 1);
    assert_eq!(flags(&emu.cpu), (false, false, false, false));
    assert_eq!(emu.step(), 2);
    assert_eq!(flags(&emu.cpu), (true, false, false, false));
}

#[test]
fn bit_res_and_set() {
    let mut cpu = fresh();
    cpu.set_af(0x0010);
    cpu.bit_r8(0x80, 7);
    assert_eq!(flags(&cpu), (false, false, true, true));
    cpu.bit_r8(0x80, 0);
    assert_eq!(flags(&cpu), (true, false, true, true));
    // BIT 3,(HL); RES 3,(HL); SET 0,(HL) on work RAM.
    let rom = rom_with(&[0x21, 0x00, 0xC0, 0x36, 0x08, 0xCB, 0x5E, 0xCB, 0x9E, 0xCB, 0xC6]);
    let mut emu = Emulator::new(&rom);
    emu.step();
    assert_eq!(emu.step(), 3);
    assert_eq!(emu.bus.read_byte(0xC000), 0x08);
    assert_eq!(emu.step(), 3);
    assert!(!emu.cpu.f.z);
    assert_eq!(emu.step(), 4);
    assert_eq!(emu.bus.read_byte(0xC000), 0x00);
    assert_eq!(emu.step(), 4);
    assert_eq!(emu.bus.read_byte(0xC000), 0x01);
}

#[test]
fn scf_and_ccf() {
    let rom = rom_with(&[0x37, 0x3F, 0x3F]);
    let mut emu = Emulator::new(&rom);
    emu.cpu.set_af(0x00E0);
    emu.step();
    assert_eq!(flags(&emu.cpu), (true, false, false, true));
    emu.step();
    assert_eq!(flags(&emu.cpu), (true, false, false, false));
    emu.step();
    assert_eq!(flags(&emu.cpu), (true, false, false, true));
}

#[test]
fn push_then_pop_restores_the_pair() {
    // LD SP,0xD000; LD BC,0x1234; PUSH BC; LD BC,0; POP BC
    let rom = rom_with(&[0x31, 0x00, 0xD0, 0x01, 0x34, 0x12, 0xC5, 0x01, 0x00, 0x00, 0xC1]);
    let mut emu = Emulator::new(&rom);
    emu.step();
    emu.step();
    assert_eq!(emu.step(), 4);
    assert_eq!(emu.cpu.sp, 0xCFFE);
    assert_eq!(emu.bus.read_byte(0xCFFF), 0x12);
    assert_eq!(emu.bus.read_byte(0xCFFE), 0x34);
    emu.step();
    assert_eq!(emu.cpu.get_bc(), 0);
    assert_eq!(emu.step(), 3);
    assert_eq!(emu.cpu.get_bc(), 0x1234);
    assert_eq!(emu.cpu.sp, 0xD000);
}

#[test]
fn pop_af_masks_the_low_nibble() {
    // LD SP,0xD000; LD BC,0x12FF; PUSH BC; POP AF; PUSH AF; POP DE
    let rom = rom_with(&[0x31, 0x00, 0xD0, 0x01, 0xFF, 0x12, 0xC5, 0xF1, 0xF5, 0xD1]);
    let mut emu = Emulator::new(&rom);
    for _ in 0..4 {
        emu.step();
    }
    assert_eq!(emu.cpu.get_af(), 0x12F0);
    assert_eq!(flags(&emu.cpu), (true, true, true, true));
    emu.step();
    emu.step();
    assert_eq!(emu.cpu.get_de(), 0x12F0);
}

#[test]
fn push_to_rom_is_lost() {
    // LD SP,0x4000; LD BC,0x1234; PUSH BC; POP DE
    let rom = rom_with(&[0x31, 0x00, 0x40, 0x01, 0x34, 0x12, 0xC5, 0xD1]);
    let mut emu = Emulator::new(&rom);
    for _ in 0..4 {
        emu.step();
    }
    assert_eq!(emu.cpu.get_de(), 0x0000);
}

#[test]
fn instruction_timings() {
    let cases: Vec<(Vec<u8>, u8)> = vec![
        (vec![0x00], 1),
        (vec![0x10], 1),
        (vec![0x41], 1),
        (vec![0x06, 0x12], 2),
        (vec![0x01, 0x34, 0x12], 3),
        (vec![0x08, 0x00, 0xC0], 5),
        (vec![0x09], 2),
        (vec![0x02], 2),
        (vec![0x0A], 2),
        (vec![0x03], 2),
        (vec![0x0B], 2),
        (vec![0x04], 1),
        (vec![0x34], 3),
        (vec![0x35], 3),
        (vec![0x36, 0x00], 3),
        (vec![0x46], 2),
        (vec![0x70], 2),
        (vec![0x86], 2),
        (vec![0x80], 1),
        (vec![0xC6, 0x01], 2),
        (vec![0x18, 0x00], 3),
        (vec![0xC3, 0x00, 0x02], 4),
        (vec![0xCD, 0x00, 0x02], 6),
        (vec![0xC9], 4),
        (vec![0xD9], 4),
        (vec![0xC7], 4),
        (vec![0xC5], 4),
        (vec![0xC1], 3),
        (vec![0xE0, 0x80], 3),
        (vec![0xF0, 0x80], 3),
        (vec![0xE2], 2),
        (vec![0xF2], 2),
        (vec![0xEA, 0x00, 0xC0], 4),
        (vec![0xFA, 0x00, 0xC0], 4),
        (vec![0xE8, 0x01], 4),
        (vec![0xF8, 0x01], 3),
        (vec![0xF9], 2),
        (vec![0xE9], 1),
        (vec![0xF3], 1),
        (vec![0xFB], 1),
        (vec![0xCB, 0x00], 2),
        (vec![0xCB, 0x06], 4),
        (vec![0xCB, 0x46], 3),
        (vec![0xCB, 0x86], 4),
        (vec![0xCB, 0xC6], 4),
        (vec![0xCB, 0x47], 2),
    ];
    for (program, expected) in cases {
        let rom = rom_with(&program);
        let mut emu = Emulator::new(&rom);
        let cycles = emu.step();
        assert_eq!(cycles, expected, "opcode {:02X}", program[0]);
        assert_eq!(emu.cpu.cycle_count, expected as u64);
        assert_eq!(emu.bus.clock.m_cycles, expected as u64);
    }
}

#[test]
fn conditional_instructions_cost_less_when_not_taken() {
    // After boot Z and C are set.
    let cases: Vec<(Vec<u8>, u8, u16)> = vec![
        (vec![0x20, 0x05], 2, 0x0102),
        (vec![0x28, 0x05], 3, 0x0107),
        (vec![0x30, 0x05], 2, 0x0102),
        (vec![0x38, 0xFE], 3, 0x0100),
        (vec![0xC2, 0x00, 0x02], 3, 0x0103),
        (vec![0xCA, 0x00, 0x02], 4, 0x0200),
        (vec![0xD2, 0x00, 0x02], 3, 0x0103),
        (vec![0xDA, 0x34, 0x12], 4, 0x1234),
        (vec![0xC4, 0x00, 0x02], 3, 0x0103),
        (vec![0xCC, 0x00, 0x02], 6, 0x0200),
        (vec![0xD4, 0x00, 0x02], 3, 0x0103),
        (vec![0xDC, 0x00, 0x02], 6, 0x0200),
        (vec![0xC0], 2, 0x0101),
        (vec![0xD0], 2, 0x0101),
    ];
    for (program, expected, pc) in cases {
        let rom = rom_with(&program);
        let mut emu = Emulator::new(&rom);
        let cycles = emu.step();
        assert_eq!(cycles, expected, "opcode {:02X}", program[0]);
        assert_eq!(emu.cpu.pc, pc, "opcode {:02X}", program[0]);
    }
}

#[test]
fn taken_return_pops_the_program_counter() {
    // LD SP,0xD000; LD BC,0x0234; PUSH BC; RET Z
    let rom = rom_with(&[0x31, 0x00, 0xD0, 0x01, 0x34, 0x02, 0xC5, 0xC8]);
    let mut emu = Emulator::new(&rom);
    for _ in 0..3 {
        emu.step();
    }
    assert_eq!(emu.step(), 5);
    assert_eq!(emu.cpu.pc, 0x0234);
    assert_eq!(emu.cpu.sp, 0xD000);
}

#[test]
fn call_pushes_the_address_after_the_operand() {
    // LD SP,0xD000; CALL 0x0200
    let rom = rom_with(&[0x31, 0x00, 0xD0, 0xCD, 0x00, 0x02]);
    let mut emu = Emulator::new(&rom);
    emu.step();
    assert_eq!(emu.step(), 6);
    assert_eq!(emu.cpu.pc, 0x0200);
    assert_eq!(emu.cpu.sp, 0xCFFE);
    assert_eq!(emu.bus.read_byte(0xCFFE), 0x06);
    assert_eq!(emu.bus.read_byte(0xCFFF), 0x01);
}

#[test]
fn rst_pushes_pc_and_jumps_to_eight_times_n() {
    for n in 0..8u16 {
        let opcode = 0xC7 + 8 * n as u8;
        let rom = rom_with(&[0x31, 0x00, 0xD0, opcode]);
        let mut emu = Emulator::new(&rom);
        emu.step();
        assert_eq!(emu.step(), 4);
        assert_eq!(emu.cpu.pc, 8 * n);
        assert_eq!(emu.bus.read_byte(0xCFFE), 0x04);
        assert_eq!(emu.bus.read_byte(0xCFFF), 0x01);
    }
}

#[test]
fn jr_jumps_backwards_with_a_negative_offset() {
    let rom = rom_with(&[0x00, 0x00, 0x18, 0xFC]);
    let mut emu = Emulator::new(&rom);
    emu.step();
    emu.step();
    assert_eq!(emu.step(), 3);
    assert_eq!(emu.cpu.pc, 0x0100);
}

#[test]
fn illegal_opcodes_and_stop_do_nothing() {
    for opcode in [0xD3u8, 0xDB, 0xDD, 0xE3, 0xE4, 0xEB, 0xEC, 0xED, 0xF4, 0xFC, 0xFD, 0x10] {
        let rom = rom_with(&[opcode, 0x00]);
        let mut emu = Emulator::new(&rom);
        let before = (
            emu.cpu.get_af(),
            emu.cpu.get_bc(),
            emu.cpu.get_de(),
            emu.cpu.get_hl(),
            emu.cpu.sp,
        );
        assert_eq!(emu.step(), 1);
        assert_eq!(emu.cpu.pc, 0x0101);
        let after = (
            emu.cpu.get_af(),
            emu.cpu.get_bc(),
            emu.cpu.get_de(),
            emu.cpu.get_hl(),
            emu.cpu.sp,
        );
        assert_eq!(before, after);
    }
}

#[test]
fn loads_through_hl_with_increment_and_decrement() {
    // LD HL,0xC000; LD A,0x11; LD (HL+),A; LD A,0x22; LD (HL-),A; LD A,(HL+); LD A,(HL-)
    let rom = rom_with(&[
        0x21, 0x00, 0xC0, 0x3E, 0x11, 0x22, 0x3E, 0x22, 0x32, 0x2A, 0x3A,
    ]);
    let mut emu = Emulator::new(&rom);
    for _ in 0..3 {
        emu.step();
    }
    assert_eq!(emu.cpu.get_hl(), 0xC001);
    emu.step();
    emu.step();
    assert_eq!(emu.cpu.get_hl(), 0xC000);
    assert_eq!(emu.bus.read_byte(0xC000), 0x11);
    assert_eq!(emu.bus.read_byte(0xC001), 0x22);
    emu.step();
    assert_eq!(emu.cpu.get_a(), 0x11);
    assert_eq!(emu.cpu.get_hl(), 0xC001);
    emu.step();
    assert_eq!(emu.cpu.get_a(), 0x22);
    assert_eq!(emu.cpu.get_hl(), 0xC000);
}

#[test]
fn ld_nn_sp_stores_low_byte_first() {
    let rom = rom_with(&[0x31, 0xCD, 0xAB, 0x08, 0x00, 0xC0]);
    let mut emu = Emulator::new(&rom);
    emu.step();
    emu.step();
    assert_eq!(emu.bus.read_byte(0xC000), 0xCD);
    assert_eq!(emu.bus.read_byte(0xC001), 0xAB);
}

#[test]
fn register_to_register_loads() {
    // LD B,0x12; LD C,B; LD D,C; LD E,D; LD H,E; LD L,H; LD A,L
    let rom = rom_with(&[0x06, 0x12, 0x48, 0x51, 0x5A, 0x63, 0x6C, 0x7D]);
    let mut emu = Emulator::new(&rom);
    for _ in 0..7 {
        emu.step();
    }
    assert_eq!(emu.cpu.get_bc(), 0x1212);
    assert_eq!(emu.cpu.get_de(), 0x1212);
    assert_eq!(emu.cpu.get_hl(), 0x1212);
    assert_eq!(emu.cpu.get_a(), 0x12);
}

#[test]
fn sixteen_bit_inc_and_dec_wrap_without_flags() {
    let rom = rom_with(&[0x01, 0xFF, 0xFF, 0x03, 0x0B, 0x31, 0x00, 0x00, 0x3B, 0x33]);
    let mut emu = Emulator::new(&rom);
    let before = emu.cpu.f;
    emu.step();
    emu.step();
    assert_eq!(emu.cpu.get_bc(), 0x0000);
    emu.step();
    assert_eq!(emu.cpu.get_bc(), 0xFFFF);
    emu.step();
    emu.step();
    assert_eq!(emu.cpu.sp, 0xFFFF);
    emu.step();
    assert_eq!(emu.cpu.sp, 0x0000);
    assert_eq!(emu.cpu.f, before);
}

#[test]
fn fetch_and_stack_helpers() {
    let rom = rom_with(&[0x34, 0x12, 0x56]);
    let mut bus = MemoryBus::new(&rom);
    let mut cpu = fresh();
    assert_eq!(cpu.fetch_word(&bus), 0x1234);
    assert_eq!(cpu.pc, 0x0102);
    assert_eq!(cpu.fetch_byte(&bus), 0x56);
    cpu.sp = 0xD000;
    cpu.push_word(&mut bus, 0xBEEF);
    assert_eq!(cpu.sp, 0xCFFE);
    assert_eq!(cpu.pop_word(&bus), 0xBEEF);
    assert_eq!(cpu.sp, 0xD000);
    cpu.write_word(&mut bus, 0xC010, 0xCAFE);
    assert_eq!(bus.read_byte(0xC010), 0xFE);
    assert_eq!(bus.read_byte(0xC011), 0xCA);
    assert_eq!(cpu.read_pair(3), 0xD000);
    cpu.write_pair(0, 0x0102);
    assert_eq!(cpu.read_r8(0, &bus), 0x01);
    assert_eq!(cpu.read_r8(1, &bus), 0x02);
    cpu.set_hl(0xC010);
    assert_eq!(cpu.read_r8(6, &bus), 0xFE);
    cpu.write_r8(6, 0x99, &mut bus);
    assert_eq!(bus.read_byte(0xC010), 0x99);
    assert!(cpu.test_condition(1));
    assert!(!cpu.test_condition(0));
    assert!(cpu.test_condition(3));
    assert!(!cpu.test_condition(2));
}
