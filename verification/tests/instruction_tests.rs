use vcpu::cpu::CPU;
use vcpu::create_memory::create_memory;
use vcpu::instructions::{Instructions, Registers};

#[test]
fn mov_lit_reg() {
    let mut m = create_memory(32);
    m[0] = Instructions::MOV_LIT_REG;
    m[1] = 0x12;
    m[2] = 0x34;
    m[3] = Registers::R1;
    let mut c = CPU::new(m);
    c.step();
    assert_eq!(c.get_register(Registers::R1 * 2), 0x1234);
}

#[test]
fn mov_reg_reg() {
    let mut m = create_memory(32);

    m[0] = Instructions::MOV_LIT_REG;
    m[1] = 0x12;
    m[2] = 0x34;
    m[3] = Registers::R1;

    m[4] = Instructions::MOV_REG_REG;
    m[5] = Registers::R1;
    m[6] = Registers::R2;

    let mut c = CPU::new(m);
    c.step();
    assert_eq!(c.get_register(Registers::R1 * 2), 0x1234);
    c.step();
    assert_eq!(c.get_register(Registers::R2 * 2), 0x1234);
}

#[test]
fn mov_reg_mem() {
    let mut m = create_memory(512);

    m[0] = Instructions::MOV_LIT_REG;
    m[1] = 0x12;
    m[2] = 0x34;
    m[3] = Registers::R1;

    m[4] = Instructions::MOV_REG_MEM;
    m[5] = Registers::R1;
    m[6] = 0x01;
    m[7] = 0x00;

    let mut c = CPU::new(m);
    c.step();
    assert_eq!(c.get_register(Registers::R1 * 2), 0x1234);
    c.step();
    assert_eq!(c.get_memory(0x0100), 0x1234);
}

#[test]
fn mov_mem_reg() {
    let mut m = create_memory(512);

    m[0] = Instructions::MOV_LIT_REG;
    m[1] = 0x12;
    m[2] = 0x34;
    m[3] = Registers::R1;

    m[4] = Instructions::MOV_REG_MEM;
    m[5] = Registers::R1;
    m[6] = 0x01;
    m[7] = 0x00;

    m[8] = Instructions::MOV_MEM_REG;
    m[9] = 0x01;
    m[10] = 0x00;
    m[11] = Registers::R2;

    let mut c = CPU::new(m);
    c.step();
    assert_eq!(c.get_register(Registers::R1 * 2), 0x1234);
    c.step();
    assert_eq!(c.get_memory(0x0100), 0x1234);
    c.step();
    assert_eq!(c.get_register(Registers::R2 * 2), 0x1234);
}

#[test]
fn add_reg_reg() {
    let mut i = 0;

    let mut get_next = || {
        let r = i;
        i += 1;
        r
    };
    let mut m = create_memory(512);
    m[get_next()] = Instructions::MOV_LIT_REG;
    m[get_next()] = 0x12;
    m[get_next()] = 0x34;
    m[get_next()] = Registers::R1;

    m[get_next()] = Instructions::MOV_LIT_REG;
    m[get_next()] = 0xAB;
    m[get_next()] = 0xCD;
    m[get_next()] = Registers::R2;

    m[get_next()] = Instructions::ADD_REG_REG;
    m[get_next()] = Registers::R1;
    m[get_next()] = Registers::R2;

    let mut c = CPU::new(m);
    c.step();
    assert_eq!(c.get_register(Registers::R1 * 2), 0x1234);
    c.step();
    assert_eq!(c.get_register(Registers::R2 * 2), 0xABCD);
    c.step();
    assert_eq!(c.get_register(Registers::ACC * 2), 0xBE01);
}

#[test]
fn jmp_not_eq() {
    let mut i = 0;

    let mut get_next = || {
        let r = i;
        i += 1;
        r
    };
    let mut m = create_memory(512);

    m[get_next()] = Instructions::MOV_MEM_REG;
    m[get_next()] = 0x01;
    m[get_next()] = 0x00;
    m[get_next()] = Registers::R1;

    m[get_next()] = Instructions::MOV_LIT_REG;
    m[get_next()] = 0x00;
    m[get_next()] = 0x01;
    m[get_next()] = Registers::R2;

    m[get_next()] = Instructions::ADD_REG_REG;
    m[get_next()] = Registers::R1;
    m[get_next()] = Registers::R2;

    m[get_next()] = Instructions::MOV_REG_MEM;
    m[get_next()] = Registers::ACC;
    m[get_next()] = 0x01;
    m[get_next()] = 0x00;

    m[get_next()] = Instructions::JMP_NOT_EQ;
    m[get_next()] = 0x00;
    m[get_next()] = 0x03;
    m[get_next()] = 0x00;
    m[get_next()] = 0x00;

    let mut c = CPU::new(m);

    for i in 0..3 {
        c.step();
        assert_eq!(c.get_memory(0x0100), i);
        c.step();
        assert_eq!(c.get_register_name("r2"), 1);
        c.step();
        assert_eq!(c.get_register_name("acc"), i + 1);
        c.step();
        assert_eq!(c.get_memory(0x0100), i + 1);
        c.step();
        let ip = if i == 2 { 20 } else { 0 };
        assert_eq!(c.get_register_name("ip"), ip);
    }
}

#[test]
fn push_pop() {
    let mut i = 0;

    let mut get_next = || {
        let r = i;
        i += 1;
        r
    };
    let mut m = create_memory(512);

    m[get_next()] = Instructions::MOV_LIT_REG;
    m[get_next()] = 0x51;
    m[get_next()] = 0x51;
    m[get_next()] = Registers::R1;

    m[get_next()] = Instructions::MOV_LIT_REG;
    m[get_next()] = 0x42;
    m[get_next()] = 0x42;
    m[get_next()] = Registers::R2;

    m[get_next()] = Instructions::PSH_REG;
    m[get_next()] = Registers::R1;

    m[get_next()] = Instructions::PSH_REG;
    m[get_next()] = Registers::R2;

    m[get_next()] = Instructions::POP;
    m[get_next()] = Registers::R1;

    m[get_next()] = Instructions::POP;
    m[get_next()] = Registers::R2;

    let mut c = CPU::new(m);

    for _ in 0..6 {
        c.step();
    }

    assert_eq!(c.get_register_name("r1"), 0x4242);
    assert_eq!(c.get_register_name("r2"), 0x5151);
}

#[test]
fn call_stack() {
    let mut i = 0;

    let mut get_next = |n: Option<usize>| {
        if let Some(p) = n {
            i = p;
            i
        } else {
            let r = i;
            i += 1;
            r
        }
    };

    let mut m = create_memory(128 * 128);

    m[get_next(None)] = Instructions::PSH_LIT;
    m[get_next(None)] = 0x33;
    m[get_next(None)] = 0x33;

    m[get_next(None)] = Instructions::PSH_LIT;
    m[get_next(None)] = 0x22;
    m[get_next(None)] = 0x22;

    m[get_next(None)] = Instructions::PSH_LIT;
    m[get_next(None)] = 0x11;
    m[get_next(None)] = 0x11;

    m[get_next(None)] = Instructions::MOV_LIT_REG;
    m[get_next(None)] = 0x12;
    m[get_next(None)] = 0x34;
    m[get_next(None)] = Registers::R1;

    m[get_next(None)] = Instructions::MOV_LIT_REG;
    m[get_next(None)] = 0x56;
    m[get_next(None)] = 0x78;
    m[get_next(None)] = Registers::R4;

    m[get_next(None)] = Instructions::PSH_LIT;
    m[get_next(None)] = 0x00;
    m[get_next(None)] = 0x00;

    m[get_next(None)] = Instructions::CAL_LIT;
    m[get_next(None)] = 0x30;
    m[get_next(None)] = 0x00;

    m[get_next(None)] = Instructions::PSH_LIT;
    m[get_next(None)] = 0x44;
    m[get_next(None)] = 0x44;

    get_next(Some(0x3000));

    m[get_next(None)] = Instructions::PSH_LIT;
    m[get_next(None)] = 0x01;
    m[get_next(None)] = 0x02;

    m[get_next(None)] = Instructions::PSH_LIT;
    m[get_next(None)] = 0x03;
    m[get_next(None)] = 0x04;

    m[get_next(None)] = Instructions::PSH_LIT;
    m[get_next(None)] = 0x05;
    m[get_next(None)] = 0x06;

    m[get_next(None)] = Instructions::MOV_LIT_REG;
    m[get_next(None)] = 0x07;
    m[get_next(None)] = 0x08;
    m[get_next(None)] = Registers::R1;

    m[get_next(None)] = Instructions::MOV_LIT_REG;
    m[get_next(None)] = 0x09;
    m[get_next(None)] = 0x0A;
    m[get_next(None)] = Registers::R8;

    m[get_next(None)] = Instructions::RET;

    let mut c = CPU::new(m);

    c.step();
    assert_eq!(c.get_memory(128 * 128 - 2), 0x3333); // push 1
    c.step();
    assert_eq!(c.get_memory(128 * 128 - 4), 0x2222); // push 2
    c.step();
    assert_eq!(c.get_memory(128 * 128 - 6), 0x1111); // push 3
    c.step();
    assert_eq!(c.get_register_name("r1"), 0x1234);
    c.step();
    assert_eq!(c.get_register_name("r4"), 0x5678);
    c.step();
    assert_eq!(c.get_memory(128 * 128 - 8), 0x0000); // # of params
    c.step();
    assert_eq!(c.get_register_name("ip"), 0x3000);
    assert_eq!(c.get_memory(128 * 128 - 10), 0x1234); // r1 saved to stack
    assert_eq!(c.get_memory(128 * 128 - 16), 0x5678); // r4 saved to stack
    assert_eq!(c.get_memory(128 * 128 - 26), 23); // return address
    assert_eq!(c.get_memory(128 * 128 - 28), 28); // stack size
    c.step();
    assert_eq!(c.get_memory(128 * 128 - 30), 0x0102); // sub call push 1
    c.step();
    assert_eq!(c.get_memory(128 * 128 - 32), 0x0304); // sub call push 2
    c.step();
    assert_eq!(c.get_memory(128 * 128 - 34), 0x0506); // sub call push 3
    c.step();
    assert_eq!(c.get_register_name("r1"), 0x0708); // sub call move reg
    c.step();
    assert_eq!(c.get_register_name("r8"), 0x090A); // sub call move reg
    c.step();
    assert_eq!(c.get_register_name("r1"), 0x1234);
    assert_eq!(c.get_register_name("r4"), 0x5678);
    c.step();
    assert_eq!(c.get_memory(128 * 128 - 8), 0x4444); // push 4
}

#[test]
fn unknown_opcode_is_a_no_op() {
    let mut m = create_memory(32);
    m[0] = 0xFF;
    let mut c = CPU::new(m);
    c.step();
    assert_eq!(c.get_register_name("ip"), 1);
    assert_eq!(c.get_register_name("acc"), 0);
    assert_eq!(c.get_register_name("sp"), 30);
}

#[test]
fn add_reg_reg_wraps_around() {
    let mut m = create_memory(64);
    m[0] = Instructions::MOV_LIT_REG;
    m[1] = 0x80;
    m[2] = 0x01;
    m[3] = Registers::R1;

    m[4] = Instructions::MOV_LIT_REG;
    m[5] = 0x80;
    m[6] = 0x02;
    m[7] = Registers::R2;

    m[8] = Instructions::ADD_REG_REG;
    m[9] = Registers::R1;
    m[10] = Registers::R2;

    let mut c = CPU::new(m);
    c.step();
    c.step();
    c.step();
    // 0x8001 + 0x8002 is 0x10003: the accumulator keeps the low 16 bits
    assert_eq!(c.get_register_name("acc"), 0x0003);
}

#[test]
fn register_selector_wraps_modulo_twelve() {
    let mut m = create_memory(32);
    m[0] = Instructions::MOV_LIT_REG;
    m[1] = 0x12;
    m[2] = 0x34;
    m[3] = 13; // 13 modulo 12 selects slot 1: the accumulator
    let mut c = CPU::new(m);
    c.step();
    assert_eq!(c.get_register_name("acc"), 0x1234);
    assert_eq!(c.get_register_name("ip"), 4);
}

#[test]
fn cal_reg_jumps_through_a_register() {
    let mut m = create_memory(256);
    m[0] = Instructions::MOV_LIT_REG;
    m[1] = 0x00;
    m[2] = 0x40;
    m[3] = Registers::R3;

    m[4] = Instructions::PSH_LIT;
    m[5] = 0x00;
    m[6] = 0x00;

    m[7] = Instructions::CAL_REG;
    m[8] = Registers::R3;

    m[0x40] = Instructions::RET;

    let mut c = CPU::new(m);
    c.step();
    c.step();
    c.step();
    assert_eq!(c.get_register_name("ip"), 0x40);
    let fp = c.get_register_name("fp");
    assert_eq!(fp, c.get_register_name("sp"));
    c.step();
    // the return lands just past CAL_REG, with the count word reclaimed
    assert_eq!(c.get_register_name("ip"), 9);
    assert_eq!(c.get_register_name("r3"), 0x0040);
    assert_eq!(c.get_register_name("sp"), 256 - 2);
    assert_eq!(c.get_register_name("fp"), 256 - 2);
}
