use i8080::stack::Stack;
use i8080::state::State;

#[test]
fn test_push8() {
    let mut state = State::new();

    state.sp = 0x80;

    state.push8(0x22);
    assert_eq!(state.memory.get(0x7f), 0x22);
    assert_eq!(state.sp, 0x7f);

    state.push8(0x28);
    assert_eq!(state.memory.get(0x7e), 0x28);
    assert_eq!(state.sp, 0x7e);
}

#[test]
fn test_push16() {
    let mut state = State::new();

    state.sp = 0x80;

    state.push16(0x2228);
    assert_eq!(state.memory.get(0x7f), 0x22);
    assert_eq!(state.memory.get(0x7e), 0x28);
    assert_eq!(state.sp, 0x7e);
}

#[test]
fn test_pop8() {
    let mut state = State::new();

    state.sp = 0xff;
    state.push8(0x68);
    assert_eq!(state.sp, 0xfe);

    assert_eq!(state.pop8(), 0x68);
    assert_eq!(state.sp, 0xff);
}

#[test]
fn test_pop16() {
    let mut state = State::new();

    state.sp = 0xff;
    state.push16(0x9876);
    assert_eq!(state.sp, 0xfd);

    assert_eq!(state.pop16(), 0x9876);
    assert_eq!(state.sp, 0xff);
}

#[test]
fn pop_reads_what_memory_holds() {
    let mut state = State::new();
    state.memory.set(0x2000, 0xcd);
    state.memory.set(0x2001, 0xab);
    state.sp = 0x2000;
    assert_eq!(state.pop16(), 0xabcd);
    assert_eq!(state.sp, 0x2002);
    assert_eq!(state.memory.get(0x2000), 0xcd);
    assert_eq!(state.memory.get(0x2001), 0xab);
}

#[test]
fn push_then_pop_every_kind_of_word() {
    let words: [u16; 6] = [0x0000, 0x0001, 0x00ff, 0x0100, 0x8000, 0xffff];
    let pointers: [u16; 5] = [0x0002, 0x0080, 0x2400, 0x8000, 0xfffd];
    for sp in pointers.iter() {
        for word in words.iter() {
            let mut state = State::new();
            state.sp = *sp;
            state.push16(*word);
            assert_eq!(state.sp, *sp - 2);
            assert_eq!(state.pop16(), *word);
            assert_eq!(state.sp, *sp);
        }
    }
}

#[test]
fn stack_pointer_wraps_at_both_ends() {
    let mut state = State::new();
    state.sp = 0x0000;
    state.push8(0x11);
    assert_eq!(state.sp, 0xffff);
    assert_eq!(state.memory.get(0xffff), 0x11);
    assert_eq!(state.pop8(), 0x11);
    assert_eq!(state.sp, 0x0000);

    state.sp = 0x0001;
    state.push16(0xbeef);
    assert_eq!(state.sp, 0xffff);
    assert_eq!(state.memory.get(0x0000), 0xbe);
    assert_eq!(state.memory.get(0xffff), 0xef);
    assert_eq!(state.pop16(), 0xbeef);
    assert_eq!(state.sp, 0x0001);
}

#[test]
fn push_touches_the_stack_only() {
    let mut state = State::new();
    state.a = 1;
    state.b = 2;
    state.h = 3;
    state.pc = 0x0444;
    state.sp = 0x0100;
    state.cc.cy = true;
    state.push16(0x1234);
    assert_eq!(state.a, 1);
    assert_eq!(state.b, 2);
    assert_eq!(state.h, 3);
    assert_eq!(state.pc, 0x0444);
    assert_eq!(state.cc.cy, true);
    assert_eq!(state.jumped, false);
    assert_eq!(state.memory.get(0x00fd), 0x00);
    assert_eq!(state.memory.get(0x00fe), 0x34);
    assert_eq!(state.memory.get(0x00ff), 0x12);
    assert_eq!(state.memory.get(0x0100), 0x00);
}
