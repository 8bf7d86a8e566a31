use retro_cores::chip8::cpu::Cpu;

#[test]
fn test_stack() {
    let mut cpu = Cpu::new();
    cpu.stack_push(0x1234);
    assert_eq!(cpu.sp, 1);
    assert_eq!(cpu.stack_pop(), 0x1234);
    assert_eq!(cpu.sp, 0);

    cpu.stack_push(0xAAAA);
    cpu.stack_push(0xBBBB);
    assert_eq!(cpu.stack_pop(), 0xBBBB);
    assert_eq!(cpu.stack_pop(), 0xAAAA);
}

#[test]
fn test_timers() {
    let mut cpu = Cpu::new();
    cpu.delay = 3;
    cpu.sound = 2;
    cpu.tick_timers();
    assert_eq!(cpu.delay, 2);
    assert_eq!(cpu.sound, 1);
}

#[test]
fn test_timers_dont_underflow() {
    let mut cpu = Cpu::new();
    cpu.tick_timers();
    assert_eq!(cpu.delay, 0);
    assert_eq!(cpu.sound, 0);
}

#[test]
fn chip8_random_bytes_follow_the_generator() {
    let mut cpu = Cpu::new();
    let r = cpu.rand_byte();
    let seed: u16 = 0xACE1u16.wrapping_mul(75).wrapping_add(74);
    assert_eq!(cpu.rng_seed, seed);
    assert_eq!(r, (seed >> 8) as u8);
}

#[test]
fn chip8_full_stack_ignores_push_and_empty_pop_gives_zero() {
    let mut cpu = Cpu::new();
    for k in 0..16u16 {
        cpu.stack_push(k);
    }
    assert_eq!(cpu.sp, 16);
    cpu.stack_push(0x999);
    assert_eq!(cpu.sp, 16);
    assert_eq!(cpu.stack_pop(), 15);
    let mut fresh = Cpu::new();
    assert_eq!(fresh.stack_pop(), 0);
    assert_eq!(fresh.sp, 0);
}
