use i8080::stack::Stack;
use i8080::state::{Condition, State};
use i8080::flags::Flags;

#[test]
fn test_new() {
    let state = State::new();

    assert_eq!(state.a, 0);
    assert_eq!(state.b, 0);
    assert_eq!(state.c, 0);
    assert_eq!(state.d, 0);
    assert_eq!(state.e, 0);
    assert_eq!(state.h, 0);
    assert_eq!(state.l, 0);
    assert_eq!(state.sp, 0);
    assert_eq!(state.pc, 0);
}

#[test]
fn test_get_hl_address() {
    let mut state = State::new();

    state.h = 0xfe;
    state.l = 0xed;
    assert_eq!(state.get_hl_address(), 0xfeed);

    state.h = 0x80;
    state.l = 0x86;
    assert_eq!(state.get_hl_address(), 0x8086);
}

#[test]
fn test_get_m() {
    let mut state = State::new();

    state.memory.set(0xcafe, 0xff);

    state.h = 0xca;
    state.l = 0xfe;

    assert_eq!(state.get_m(), 0xff);
}

#[test]
fn test_set_m() {
    let mut state = State::new();

    state.memory.set(0xcafe, 0xff);

    state.h = 0xca;
    state.l = 0xfe;

    assert_eq!(state.get_m(), 0xff);
}

#[test]
fn test_set_bc() {
    let mut state = State::new();

    state.set_bc(0x1020);
    assert_eq!(state.b, 0x10);
    assert_eq!(state.c, 0x20);
    assert_eq!(state.get_bc(), 0x1020);

    state.set_bc(0xabcd);
    assert_eq!(state.b, 0xab);
    assert_eq!(state.c, 0xcd);
    assert_eq!(state.get_bc(), 0xabcd);
}

#[test]
fn test_set_de() {
    let mut state = State::new();

    state.set_de(0x1020);
    assert_eq!(state.d, 0x10);
    assert_eq!(state.e, 0x20);
    assert_eq!(state.get_de(), 0x1020);

    state.set_de(0xabcd);
    assert_eq!(state.d, 0xab);
    assert_eq!(state.e, 0xcd);
    assert_eq!(state.get_de(), 0xabcd);
}

#[test]
fn test_set_hl() {
    let mut state = State::new();

    state.set_hl(0x1020);
    assert_eq!(state.h, 0x10);
    assert_eq!(state.l, 0x20);

    state.set_hl(0xabcd);
    assert_eq!(state.h, 0xab);
    assert_eq!(state.l, 0xcd);
}

#[test]
fn test_get_operand() {
    let mut state = State::new();

    state.a = 0xa0;
    state.b = 0xb0;
    state.c = 0xc0;
    state.d = 0xd0;
    state.e = 0xe0;
    state.h = 0x32;
    state.l = 0x64;
    state.memory.set(0x3264, 0x12);

    assert_eq!(state.get_operand(0x80), 0xb0);
    assert_eq!(state.get_operand(0x89), 0xc0);
    assert_eq!(state.get_operand(0xa2), 0xd0);
    assert_eq!(state.get_operand(0xab), 0xe0);
    assert_eq!(state.get_operand(0x44), 0x32);
    assert_eq!(state.get_operand(0x4d), 0x64);
    assert_eq!(state.get_operand(0x56), 0x12);
    assert_eq!(state.get_operand(0x5f), 0xa0);
}

#[test]
fn test_set_flags() {
    let mut state = State::new();

    state.set_flags(0);
    assert_eq!(state.cc.z, true);
    assert_eq!(state.cc.s, false);
    assert_eq!(state.cc.p, true);
    assert_eq!(state.cc.cy, false);

    state.set_flags(0xf0);
    assert_eq!(state.cc.z, false);
    assert_eq!(state.cc.s, true);
    assert_eq!(state.cc.p, true);
    assert_eq!(state.cc.cy, false);

    state.set_flags(0x1f8);
    assert_eq!(state.cc.z, false);
    assert_eq!(state.cc.s, true);
    assert_eq!(state.cc.p, false);
    assert_eq!(state.cc.cy, true);

    state.set_flags(0x100);
    assert_eq!(state.cc.z, true);
    assert_eq!(state.cc.s, false);
    assert_eq!(state.cc.p, true);
    assert_eq!(state.cc.cy, true);
}

#[test]
fn test_add8() {
    let mut state = State::new();

    state.a = 0x08;
    state.add8(0x12);
    assert_eq!(state.a, 0x1a);
    assert_eq!(state.cc.z, false);
    assert_eq!(state.cc.s, false);
    assert_eq!(state.cc.cy, false);

    state.a = 0xfe;
    state.add8(0x02);
    assert_eq!(state.a, 0x00);
    assert_eq!(state.cc.z, true);
    assert_eq!(state.cc.s, false);
    assert_eq!(state.cc.cy, true);
}

#[test]
fn test_add16() {
    let mut state = State::new();

    state.h = 0x20;
    state.l = 0x40;
    state.add16(0x0808);
    assert_eq!(state.h, 0x28);
    assert_eq!(state.l, 0x48);
    assert_eq!(state.cc.cy, false);

    state.h = 0xff;
    state.l = 0xff;
    state.add16(0x0001);
    assert_eq!(state.h, 0x00);
    assert_eq!(state.l, 0x00);
    assert_eq!(state.cc.cy, true);
}

#[test]
fn test_sub8() {
    let mut state = State::new();

    state.a = 0x08;
    state.sub8(0x12);
    assert_eq!(state.a, 0xf6);
    assert_eq!(state.cc.z, false);
    assert_eq!(state.cc.s, true);
    assert_eq!(state.cc.cy, true);

    state.a = 0xfe;
    state.sub8(0x02);
    assert_eq!(state.a, 0xfc);
    assert_eq!(state.cc.z, false);
    assert_eq!(state.cc.s, true);
    assert_eq!(state.cc.cy, false);

    state.a = 0xe7;
    state.sub8(0xe7);
    assert_eq!(state.a, 0x00);
    assert_eq!(state.cc.z, true);
    assert_eq!(state.cc.s, false);
    assert_eq!(state.cc.cy, false);
}

#[test]
fn test_adc8() {
    let mut state = State::new();

    state.a = 0x08;
    state.cc.cy = false;
    state.adc8(0x12);
    assert_eq!(state.a, 0x1a);
    assert_eq!(state.cc.z, false);
    assert_eq!(state.cc.s, false);
    assert_eq!(state.cc.cy, false);

    state.a = 0xfe;
    state.cc.cy = false;
    state.adc8(0x02);
    assert_eq!(state.a, 0x00);
    assert_eq!(state.cc.z, true);
    assert_eq!(state.cc.s, false);
    assert_eq!(state.cc.cy, true);

    state.a = 0xa8;
    state.cc.cy = true;
    state.adc8(0x11);
    assert_eq!(state.a, 0xba);
    assert_eq!(state.cc.z, false);
    assert_eq!(state.cc.s, true);
    assert_eq!(state.cc.cy, false);
}

#[test]
fn test_sbb8() {
    let mut state = State::new();

    state.a = 0x08;
    state.cc.cy = false;
    state.sbb8(0x12);
    assert_eq!(state.a, 0xf6);
    assert_eq!(state.cc.z, false);
    assert_eq!(state.cc.s, true);
    assert_eq!(state.cc.cy, true);

    state.a = 0xfe;
    state.cc.cy = false;
    state.sbb8(0x02);
    assert_eq!(state.a, 0xfc);
    assert_eq!(state.cc.z, false);
    assert_eq!(state.cc.s, true);
    assert_eq!(state.cc.cy, false);

    state.a = 0xe7;
    state.cc.cy = false;
    state.sbb8(0xe7);
    assert_eq!(state.a, 0x00);
    assert_eq!(state.cc.z, true);
    assert_eq!(state.cc.s, false);
    assert_eq!(state.cc.cy, false);

    state.a = 0xfe;
    state.cc.cy = true;
    state.sbb8(0x02);
    assert_eq!(state.a, 0xfb);
    assert_eq!(state.cc.z, false);
    assert_eq!(state.cc.s, true);
    assert_eq!(state.cc.cy, false);

    state.a = 0x01;
    state.cc.cy = true;
    state.sbb8(0x00);
    assert_eq!(state.a, 0x00);
    assert_eq!(state.cc.z, true);
    assert_eq!(state.cc.s, false);
    assert_eq!(state.cc.cy, false);
}

#[test]
fn test_and8() {
    let mut state = State::new();

    state.a = 0xaa;
    state.and8(0x0f);
    assert_eq!(state.a, 0x0a);
    assert_eq!(state.cc.z, false);
    assert_eq!(state.cc.s, false);
    assert_eq!(state.cc.cy, false);

    state.a = 0xff;
    state.and8(0x00);
    assert_eq!(state.a, 0x00);
    assert_eq!(state.cc.z, true);
    assert_eq!(state.cc.s, false);
    assert_eq!(state.cc.cy, false);
}

#[test]
fn test_xor8() {
    let mut state = State::new();

    state.a = 0xaa;
    state.xor8(0x3a);
    assert_eq!(state.a, 0x90);
    assert_eq!(state.cc.z, false);
    assert_eq!(state.cc.s, true);
    assert_eq!(state.cc.cy, false);

    state.a = 0xff;
    state.xor8(0xff);
    assert_eq!(state.a, 0x00);
    assert_eq!(state.cc.z, true);
    assert_eq!(state.cc.s, false);
    assert_eq!(state.cc.cy, false);
}

#[test]
fn test_or8() {
    let mut state = State::new();

    state.a = 0xaa;
    state.or8(0x0f);
    assert_eq!(state.a, 0xaf);
    assert_eq!(state.cc.z, false);
    assert_eq!(state.cc.s, true);
    assert_eq!(state.cc.cy, false);

    state.a = 0xff;
    state.or8(0x00);
    assert_eq!(state.a, 0xff);
    assert_eq!(state.cc.z, false);
    assert_eq!(state.cc.s, true);
    assert_eq!(state.cc.cy, false);
}

#[test]
fn test_cmp8() {
    let mut state = State::new();

    state.a = 0x08;
    state.cmp8(0x12);
    assert_eq!(state.a, 0x08);
    assert_eq!(state.cc.z, false);
    assert_eq!(state.cc.s, true);
    assert_eq!(state.cc.cy, true);

    state.a = 0xfe;
    state.cmp8(0x02);
    assert_eq!(state.a, 0xfe);
    assert_eq!(state.cc.z, false);
    assert_eq!(state.cc.s, true);
    assert_eq!(state.cc.cy, false);

    state.a = 0xe7;
    state.cmp8(0xe7);
    assert_eq!(state.a, 0xe7);
    assert_eq!(state.cc.z, true);
    assert_eq!(state.cc.s, false);
    assert_eq!(state.cc.cy, false);
}

#[test]
fn test_jump_if() {
    let mut state = State::new();

    state.memory.set(0x20, 0xda);
    state.memory.set(0x21, 0x16);
    state.memory.set(0x22, 0x32);

    state.pc = 0x20;
    state.jump_if(|ref s| s.pc == 0x21);
    assert_eq!(state.pc, 0x20);

    state.jump_if(|ref s| s.pc < 0x21);
    assert_eq!(state.pc, 0x3216);
}

#[test]
fn test_call_if() {
    let mut state = State::new();

    state.sp = 0xff;

    state.memory.set(0x3020, 0xda);
    state.memory.set(0x3021, 0x16);
    state.memory.set(0x3022, 0x32);

    state.pc = 0x3020;
    state.call_if(|ref s| s.pc > 0x4000);
    assert_eq!(state.pc, 0x3020);
    assert_eq!(state.sp, 0xff);
    assert_eq!(state.memory.get(0xfe), 0x00);
    assert_eq!(state.memory.get(0xfd), 0x00);

    state.pc = 0x3020;
    state.call_if(|ref s| s.pc < 0x4000);
    assert_eq!(state.pc, 0x3216);
    assert_eq!(state.sp, 0xfd);
    assert_eq!(state.memory.get(0xfe), 0x30);
    assert_eq!(state.memory.get(0xfd), 0x23);
}

#[test]
fn test_ret_if() {
    let mut state = State::new();

    state.sp = 0xff;
    state.push16(0x9876);

    state.pc = 0xcafe;
    state.ret_if(|ref s| s.a != 0);
    assert_eq!(state.pc, 0xcafe);
    assert_eq!(state.jumped, false);

    state.ret_if(|ref s| s.a == 0);
    assert_eq!(state.pc, 0x9876);
    assert_eq!(state.jumped, true);
}

#[test]
fn new_state_is_all_zero() {
    let state = State::new();
    assert_eq!(state.cc, Flags::new());
    assert_eq!(state.int_enable, false);
    assert_eq!(state.jumped, false);
    assert_eq!(state.trace_history.len(), 0);
    assert!(state.memory.view(0, 0xffff).iter().all(|n| *n == 0));
}

#[test]
fn snapshot_copies_registers_and_pointers() {
    let mut state = State::new();
    state.a = 1;
    state.b = 2;
    state.c = 3;
    state.d = 4;
    state.e = 5;
    state.h = 6;
    state.l = 7;
    state.sp = 0x0809;
    state.pc = 0x0a0b;
    let snap = state.snapshot();
    assert_eq!(
        (snap.a, snap.b, snap.c, snap.d, snap.e, snap.h, snap.l, snap.sp, snap.pc),
        (1, 2, 3, 4, 5, 6, 7, 0x0809, 0x0a0b)
    );
}

#[test]
fn named_predicates_read_their_flag() {
    let mut state = State::new();
    assert_eq!(State::is_nz(&state), true);
    assert_eq!(State::is_z(&state), false);
    assert_eq!(State::is_nc(&state), true);
    assert_eq!(State::is_c(&state), false);
    assert_eq!(State::is_parity_odd(&state), true);
    assert_eq!(State::is_parity_even(&state), false);
    assert_eq!(State::is_plus(&state), true);
    assert_eq!(State::is_minus(&state), false);
    assert_eq!(State::unconditionally(&state), true);

    state.cc = Flags { z: true, s: true, p: true, cy: true, ac: false };
    assert_eq!(State::is_nz(&state), false);
    assert_eq!(State::is_z(&state), true);
    assert_eq!(State::is_nc(&state), false);
    assert_eq!(State::is_c(&state), true);
    assert_eq!(State::is_parity_odd(&state), false);
    assert_eq!(State::is_parity_even(&state), true);
    assert_eq!(State::is_plus(&state), false);
    assert_eq!(State::is_minus(&state), true);
    assert_eq!(State::unconditionally(&state), true);
}

#[test]
fn predicate_for_reads_bits_three_to_five() {
    assert_eq!(State::predicate_for(0xc0), Condition::NotZero);
    assert_eq!(State::predicate_for(0xc8), Condition::Zero);
    assert_eq!(State::predicate_for(0xd2), Condition::NoCarry);
    assert_eq!(State::predicate_for(0xda), Condition::Carry);
    assert_eq!(State::predicate_for(0xe4), Condition::ParityOdd);
    assert_eq!(State::predicate_for(0xec), Condition::ParityEven);
    assert_eq!(State::predicate_for(0xf0), Condition::Plus);
    assert_eq!(State::predicate_for(0xf8), Condition::Minus);
    assert_eq!(State::predicate_for(0x3f), Condition::Minus);
    assert_eq!(State::predicate_for(0x07), Condition::NotZero);
}

#[test]
fn conditions_evaluate_against_flags() {
    let clear = Flags::new();
    let set = Flags { z: true, s: true, p: true, cy: true, ac: true };
    assert_eq!(Condition::NotZero.evaluate(&clear), true);
    assert_eq!(Condition::NotZero.evaluate(&set), false);
    assert_eq!(Condition::Zero.evaluate(&clear), false);
    assert_eq!(Condition::Zero.evaluate(&set), true);
    assert_eq!(Condition::NoCarry.evaluate(&clear), true);
    assert_eq!(Condition::NoCarry.evaluate(&set), false);
    assert_eq!(Condition::Carry.evaluate(&clear), false);
    assert_eq!(Condition::Carry.evaluate(&set), true);
    assert_eq!(Condition::ParityOdd.evaluate(&clear), true);
    assert_eq!(Condition::ParityOdd.evaluate(&set), false);
    assert_eq!(Condition::ParityEven.evaluate(&clear), false);
    assert_eq!(Condition::ParityEven.evaluate(&set), true);
    assert_eq!(Condition::Plus.evaluate(&clear), true);
    assert_eq!(Condition::Plus.evaluate(&set), false);
    assert_eq!(Condition::Minus.evaluate(&clear), false);
    assert_eq!(Condition::Minus.evaluate(&set), true);
    assert_eq!(Condition::Always.evaluate(&clear), true);
    assert_eq!(Condition::Always.evaluate(&set), true);
    let only_carry = Flags { cy: true, ..clear };
    assert_eq!(Condition::Carry.evaluate(&only_carry), true);
    assert_eq!(Condition::Zero.evaluate(&only_carry), false);
}

#[test]
fn advance_by_the_length_of_the_instruction() {
    let mut state = State::new();
    state.pc = 0x0100;
    state.advance(0x00);
    assert_eq!(state.pc, 0x0101);
    state.advance(0x3e);
    assert_eq!(state.pc, 0x0103);
    state.advance(0xc3);
    assert_eq!(state.pc, 0x0106);
    state.advance(0x21);
    assert_eq!(state.pc, 0x0109);
    state.advance(0xd3);
    assert_eq!(state.pc, 0x010b);
    state.advance(0xcd);
    assert_eq!(state.pc, 0x010e);
    state.advance(0xe3);
    assert_eq!(state.pc, 0x010f);
    assert_eq!(state.jumped, false);
}

#[test]
fn advance_after_a_redirect_keeps_the_counter() {
    let mut state = State::new();
    state.pc = 0x3216;
    state.jumped = true;
    state.advance(0xc3);
    assert_eq!(state.pc, 0x3216);
    assert_eq!(state.jumped, false);
    state.advance(0xc3);
    assert_eq!(state.pc, 0x3219);
}

#[test]
fn advance_wraps_past_the_last_address() {
    let mut state = State::new();
    state.pc = 0xfffe;
    state.advance(0xc2);
    assert_eq!(state.pc, 0x0001);
    state.pc = 0xffff;
    state.advance(0x00);
    assert_eq!(state.pc, 0x0000);
}

#[test]
fn pairs_are_made_of_their_registers() {
    let mut state = State::new();
    state.b = 0x12;
    state.c = 0x34;
    state.d = 0x56;
    state.e = 0x78;
    assert_eq!(state.get_bc(), 0x1234);
    assert_eq!(state.get_de(), 0x5678);
    state.set_hl(0x9abc);
    assert_eq!(state.get_hl_address(), 0x9abc);
    assert_eq!((state.b, state.c, state.d, state.e), (0x12, 0x34, 0x56, 0x78));
}

#[test]
fn set_m_writes_where_hl_points() {
    let mut state = State::new();
    state.h = 0xca;
    state.l = 0xfe;
    state.set_m(0x5d);
    assert_eq!(state.memory.get(0xcafe), 0x5d);
    assert_eq!(state.get_m(), 0x5d);
    assert_eq!(state.memory.get(0xcafd), 0x00);
    assert_eq!(state.memory.get(0xcaff), 0x00);
}

#[test]
fn set_register_by_destination_field() {
    let mut state = State::new();
    state.h = 0x32;
    state.l = 0x64;
    state.set_register(0x40, 0x01);
    assert_eq!(state.b, 0x01);
    state.set_register(0x48, 0x02);
    assert_eq!(state.c, 0x02);
    state.set_register(0x50, 0x03);
    assert_eq!(state.d, 0x03);
    state.set_register(0x58, 0x04);
    assert_eq!(state.e, 0x04);
    state.set_register(0x70, 0x07);
    assert_eq!(state.memory.get(0x3264), 0x07);
    state.set_register(0x78, 0x08);
    assert_eq!(state.a, 0x08);
    state.set_register(0x60, 0x05);
    assert_eq!(state.h, 0x05);
    state.set_register(0x68, 0x06);
    assert_eq!(state.l, 0x06);
    assert_eq!(
        (state.a, state.b, state.c, state.d, state.e, state.h, state.l),
        (0x08, 0x01, 0x02, 0x03, 0x04, 0x05, 0x06)
    );
    // the low three bits, which name a source, play no part
    state.set_register(0x47, 0x99);
    assert_eq!(state.b, 0x99);
}

#[test]
fn set_flags_no_carry_keeps_carry() {
    let mut state = State::new();
    state.cc.cy = true;
    state.cc.ac = true;
    state.set_flags_no_carry(0x00);
    assert_eq!(state.cc, Flags { z: true, s: false, p: true, cy: true, ac: true });
    state.set_flags_no_carry(0x80);
    assert_eq!(state.cc, Flags { z: false, s: true, p: false, cy: true, ac: true });
    state.cc.cy = false;
    state.set_flags_no_carry(0x03);
    assert_eq!(state.cc, Flags { z: false, s: false, p: true, cy: false, ac: true });
}

#[test]
fn add8_sets_parity_and_keeps_the_rest() {
    let mut state = State::new();
    state.a = 0x01;
    state.b = 0x77;
    state.sp = 0x1234;
    state.add8(0x02);
    assert_eq!(state.a, 0x03);
    assert_eq!(state.cc, Flags { z: false, s: false, p: true, cy: false, ac: false });
    state.add8(0x01);
    assert_eq!(state.a, 0x04);
    assert_eq!(state.cc.p, false);
    state.a = 0xff;
    state.add8(0xff);
    assert_eq!(state.a, 0xfe);
    assert_eq!(state.cc, Flags { z: false, s: true, p: false, cy: true, ac: false });
    assert_eq!(state.b, 0x77);
    assert_eq!(state.sp, 0x1234);
}

#[test]
fn adc8_adds_the_carry_not_the_zero_flag() {
    let mut state = State::new();
    state.a = 0x10;
    state.cc.z = true;
    state.cc.cy = false;
    state.adc8(0x01);
    assert_eq!(state.a, 0x11);

    state.a = 0x10;
    state.cc.z = false;
    state.cc.cy = true;
    state.adc8(0x01);
    assert_eq!(state.a, 0x12);

    state.a = 0xff;
    state.cc.cy = true;
    state.adc8(0xff);
    assert_eq!(state.a, 0xff);
    assert_eq!(state.cc.cy, true);
    assert_eq!(state.cc.s, true);
    assert_eq!(state.cc.z, false);

    state.a = 0xff;
    state.cc.cy = true;
    state.adc8(0x00);
    assert_eq!(state.a, 0x00);
    assert_eq!(state.cc.cy, true);
    assert_eq!(state.cc.z, true);
}

#[test]
fn sbb8_carry_compares_with_the_operand_alone() {
    let mut state = State::new();
    state.a = 0x05;
    state.cc.cy = true;
    state.sbb8(0x05);
    assert_eq!(state.a, 0xff);
    assert_eq!(state.cc.cy, false);
    assert_eq!(state.cc.s, true);
    assert_eq!(state.cc.z, false);
    assert_eq!(state.cc.p, true);

    state.a = 0x00;
    state.cc.cy = true;
    state.sbb8(0xff);
    assert_eq!(state.a, 0x00);
    assert_eq!(state.cc.cy, true);
    assert_eq!(state.cc.z, true);
}

#[test]
fn logic_clears_carry() {
    let mut state = State::new();
    state.a = 0xf0;
    state.cc.cy = true;
    state.and8(0x3c);
    assert_eq!(state.a, 0x30);
    assert_eq!(state.cc, Flags { z: false, s: false, p: true, cy: false, ac: false });

    state.cc.cy = true;
    state.xor8(0x31);
    assert_eq!(state.a, 0x01);
    assert_eq!(state.cc, Flags { z: false, s: false, p: false, cy: false, ac: false });

    state.cc.cy = true;
    state.or8(0x80);
    assert_eq!(state.a, 0x81);
    assert_eq!(state.cc, Flags { z: false, s: true, p: true, cy: false, ac: false });
}

#[test]
fn cmp8_gives_the_flags_of_sub8() {
    let operands: [u8; 7] = [0x00, 0x01, 0x3b, 0x7f, 0x80, 0xc4, 0xff];
    let accumulators: [u8; 7] = [0x00, 0x01, 0x3b, 0x7f, 0x80, 0xc5, 0xff];
    for a in accumulators.iter() {
        for x in operands.iter() {
            let mut compared = State::new();
            compared.a = *a;
            compared.cmp8(*x);
            let mut subtracted = State::new();
            subtracted.a = *a;
            subtracted.sub8(*x);
            assert_eq!(compared.cc, subtracted.cc);
            assert_eq!(compared.a, *a);
            assert_eq!(subtracted.a, a.wrapping_sub(*x));
        }
    }
}

#[test]
fn add16_touches_carry_only() {
    let mut state = State::new();
    state.h = 0x0f;
    state.l = 0xff;
    state.cc = Flags { z: true, s: true, p: true, cy: true, ac: true };
    state.add16(0x0001);
    assert_eq!(state.get_hl_address(), 0x1000);
    assert_eq!(state.cc, Flags { z: true, s: true, p: true, cy: false, ac: true });

    state.h = 0x80;
    state.l = 0x00;
    state.add16(0x8000);
    assert_eq!(state.get_hl_address(), 0x0000);
    assert_eq!(state.cc, Flags { z: true, s: true, p: true, cy: true, ac: true });

    state.h = 0xff;
    state.l = 0xff;
    state.add16(0xffff);
    assert_eq!(state.get_hl_address(), 0xfffe);
    assert_eq!(state.cc.cy, true);
}

#[test]
fn operate8_by_operation_field() {
    let run = |opcode: u8, a: u8, carry: bool, operand: u8| -> (u8, bool) {
        let mut state = State::new();
        state.a = a;
        state.cc.cy = carry;
        state.operate8(opcode, operand);
        (state.a, state.cc.cy)
    };
    assert_eq!(run(0x80, 0x0f, true, 0x01), (0x10, false)); // ADD
    assert_eq!(run(0x88, 0x0f, true, 0x01), (0x11, false)); // ADC
    assert_eq!(run(0x90, 0x0f, true, 0x10), (0xff, true)); // SUB
    assert_eq!(run(0x98, 0x0f, true, 0x01), (0x0d, false)); // SBB
    assert_eq!(run(0xa0, 0x0f, true, 0x3c), (0x0c, false)); // ANA
    assert_eq!(run(0xa8, 0x0f, true, 0x3c), (0x33, false)); // XRA
    assert_eq!(run(0xb0, 0x0f, true, 0x3c), (0x3f, false)); // ORA
    assert_eq!(run(0xb8, 0x0f, true, 0x10), (0x0f, true)); // CMP
    // the immediate forms select the same operations
    assert_eq!(run(0xc6, 0x0f, true, 0x01), (0x10, false)); // ADI
    assert_eq!(run(0xde, 0x0f, true, 0x01), (0x0d, false)); // SBI
    assert_eq!(run(0xfe, 0x0f, false, 0x0f), (0x0f, false)); // CPI
}

#[test]
fn jump_if_marks_the_redirect() {
    let mut state = State::new();
    state.memory.load(0x0020, vec![0xc2, 0x16, 0x32]);
    state.pc = 0x0020;
    state.jump_if(State::is_z);
    assert_eq!(state.pc, 0x0020);
    assert_eq!(state.jumped, false);
    state.jump_if(State::is_nz);
    assert_eq!(state.pc, 0x3216);
    assert_eq!(state.jumped, true);
    assert_eq!(state.sp, 0);
}

#[test]
fn call_if_pushes_the_address_after_the_call() {
    let mut state = State::new();
    state.sp = 0x2400;
    state.memory.load(0x3020, vec![0xcd, 0x16, 0x32]);
    state.pc = 0x3020;
    state.call_if(State::unconditionally);
    assert_eq!(state.pc, 0x3216);
    assert_eq!(state.jumped, true);
    assert_eq!(state.sp, 0x23fe);
    assert_eq!(state.memory.get(0x23ff), 0x30);
    assert_eq!(state.memory.get(0x23fe), 0x23);
}

#[test]
fn call_at_the_end_of_memory_wraps_the_return_address() {
    let mut state = State::new();
    state.sp = 0x0100;
    state.memory.set(0xfffe, 0xcd);
    state.memory.set(0xffff, 0x00);
    state.memory.set(0x0000, 0x40);
    state.pc = 0xfffe;
    state.call_if(State::unconditionally);
    assert_eq!(state.pc, 0x4000);
    assert_eq!(state.pop16(), 0x0001);
}

#[test]
fn rst_to_pushes_the_next_address() {
    let mut state = State::new();
    state.sp = 0x2400;
    state.pc = 0x1234;
    state.rst_to(0x0008);
    assert_eq!(state.pc, 0x0008);
    assert_eq!(state.jumped, true);
    assert_eq!(state.sp, 0x23fe);
    assert_eq!(state.memory.get(0x23ff), 0x12);
    assert_eq!(state.memory.get(0x23fe), 0x35);
}

#[test]
fn ret_if_pops_the_target() {
    let mut state = State::new();
    state.sp = 0x23fe;
    state.memory.set(0x23fe, 0x23);
    state.memory.set(0x23ff, 0x30);
    state.pc = 0x3216;
    state.cc.cy = true;
    state.ret_if(State::is_nc);
    assert_eq!(state.pc, 0x3216);
    assert_eq!(state.sp, 0x23fe);
    assert_eq!(state.jumped, false);
    state.ret_if(State::is_c);
    assert_eq!(state.pc, 0x3023);
    assert_eq!(state.sp, 0x2400);
    assert_eq!(state.jumped, true);
}

#[test]
fn stack_debug_lists_the_top_of_the_stack() {
    let mut state = State::new();
    state.sp = 0x2400;
    state.push16(0x1234);
    state.push16(0xabcd);
    assert_eq!(state.stack_debug(4), vec![0xcd, 0xab, 0x34, 0x12]);
    assert_eq!(state.stack_debug(0), Vec::<u8>::new());
    assert_eq!(state.stack_debug(1), vec![0xcd]);
    assert_eq!(state.sp, 0x23fc);

    state.sp = 0xffff;
    state.memory.set(0xffff, 0x01);
    state.memory.set(0x0000, 0x02);
    assert_eq!(state.stack_debug(3), vec![0x01, 0x02, 0x00]);
}
