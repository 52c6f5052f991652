use chipvm::machine::Machine;
use chipvm::state::{Event, Fault, Stop};

fn loaded(program: &[u8]) -> Machine {
    let mut m = Machine::new();
    m.load(program).unwrap();
    m
}

fn step(m: &mut Machine) -> (Result<Event, Fault>, String) {
    let mut sink = String::new();
    let r = m.dispatch(&mut sink);
    (r, sink)
}

#[test]
fn scenario_add_print_halt() {
    let mut m = loaded(&[0x60, 0x11, 0x61, 0x22, 0x80, 0x14, 0xF0, 0x01, 0xFF, 0xFF]);
    let mut sink = String::new();
    let stop = m.run(100, &mut sink);
    assert_eq!(stop, Stop::Halted);
    assert_eq!(m.registers()[0], 0x33);
    assert_eq!(m.registers()[1], 0x22);
    assert_eq!(m.registers()[15], 0);
    assert_eq!(sink, "6011\n6122\n8014\nF001\n33 FFFF\nExiting...\n");
    assert_eq!(m.pc(), 522);
}

#[test]
fn scenario_add_print_halt_cycle_by_cycle() {
    let mut m = loaded(&[0x60, 0x11, 0x61, 0x22, 0x80, 0x14, 0xF0, 0x01, 0xFF, 0xFF]);
    assert_eq!(step(&mut m), (Ok(Event::Executed), String::from("6011\n")));
    assert_eq!(m.registers()[0], 0x11);
    assert_eq!(step(&mut m), (Ok(Event::Executed), String::from("6122\n")));
    assert_eq!(m.registers()[1], 0x22);
    assert_eq!(step(&mut m), (Ok(Event::Executed), String::from("8014\n")));
    assert_eq!(m.registers()[0], 0x33);
    assert_eq!(m.registers()[15], 0);
    assert_eq!(step(&mut m), (Ok(Event::Executed), String::from("F001\n33 ")));
    assert_eq!(step(&mut m), (Ok(Event::Halted), String::from("FFFF\nExiting...\n")));
}

#[test]
fn scenario_add_imm_wraps_without_flag() {
    let mut m = loaded(&[0x63, 0xFF, 0x73, 0x01]);
    assert_eq!(step(&mut m).0, Ok(Event::Executed));
    assert_eq!(m.registers()[3], 0xFF);
    assert_eq!(step(&mut m).0, Ok(Event::Executed));
    assert_eq!(m.registers()[3], 0x00);
    assert_eq!(m.registers()[15], 0);
    assert_eq!(m.pc(), 516);
}

#[test]
fn scenario_return_with_empty_stack() {
    let mut m = loaded(&[0x00, 0x00]);
    assert_eq!(m.sp(), 0);
    let (r, text) = step(&mut m);
    assert_eq!(r, Err(Fault::StackUnderflow));
    assert_eq!(text, "0\n");
    assert_eq!(m.sp(), 0);
    assert_eq!(m.pc(), 514);
    let mut m = loaded(&[0x00, 0x00]);
    let mut sink = String::new();
    assert_eq!(m.run(10, &mut sink), Stop::Faulted(Fault::StackUnderflow));
}

#[test]
fn scenario_bcd() {
    let mut m = loaded(&[0x64, 0xCD, 0xA6, 0x00, 0xD4, 0x00]);
    let mut sink = String::new();
    assert_eq!(m.run(3, &mut sink), Stop::OutOfCycles);
    assert_eq!(m.registers()[4], 205);
    assert_eq!(m.index(), 0x600);
    assert_eq!(m.memory()[0x600], 2);
    assert_eq!(m.memory()[0x601], 0);
    assert_eq!(m.memory()[0x602], 5);
    assert_eq!(sink, "64CD\nA600\nD400\n");
}

#[test]
fn skip_eq_imm_advances_by_four_when_equal() {
    let mut m = loaded(&[0x30, 0x00]);
    assert_eq!(step(&mut m).0, Ok(Event::Executed));
    assert_eq!(m.pc(), 516);
}

#[test]
fn skip_eq_imm_advances_by_two_when_unequal() {
    let mut m = loaded(&[0x30, 0x01]);
    assert_eq!(step(&mut m).0, Ok(Event::Executed));
    assert_eq!(m.pc(), 514);
}

#[test]
fn skip_neq_imm_advances_by_four_when_unequal() {
    let mut m = loaded(&[0x40, 0x01, 0x40, 0x00]);
    assert_eq!(step(&mut m).0, Ok(Event::Executed));
    assert_eq!(m.pc(), 516);
    m.jmp(514);
    assert_eq!(step(&mut m).0, Ok(Event::Executed));
    assert_eq!(m.pc(), 516);
}

#[test]
fn skip_eq_reg_and_skip_neq_reg() {
    let mut m = loaded(&[0x61, 0x05, 0x51, 0x20, 0x91, 0x20, 0x51, 0x10, 0x00, 0x00, 0x91, 0x10]);
    assert_eq!(step(&mut m).0, Ok(Event::Executed));
    assert_eq!(step(&mut m).0, Ok(Event::Executed));
    assert_eq!(m.pc(), 516);
    assert_eq!(step(&mut m).0, Ok(Event::Executed));
    assert_eq!(m.pc(), 520);
    m.jmp(518);
    assert_eq!(step(&mut m).0, Ok(Event::Executed));
    assert_eq!(m.pc(), 522);
    assert_eq!(step(&mut m).0, Ok(Event::Executed));
    assert_eq!(m.pc(), 524);
}

#[test]
fn skip_ignores_the_low_nibble_of_register_compares() {
    let mut m = loaded(&[0x51, 0x2F, 0x91, 0x2F]);
    assert_eq!(step(&mut m), (Ok(Event::Executed), String::from("512F\n")));
    assert_eq!(m.pc(), 516);
    m.jmp(514);
    assert_eq!(step(&mut m), (Ok(Event::Executed), String::from("912F\n")));
    assert_eq!(m.pc(), 516);
}

#[test]
fn jump_call_and_return() {
    let mut image = vec![0u8; 0x20];
    image[0x00] = 0x22;
    image[0x01] = 0x10;
    image[0x02] = 0xFF;
    image[0x03] = 0xFF;
    image[0x10] = 0x6A;
    image[0x11] = 0x07;
    image[0x12] = 0x00;
    image[0x13] = 0x00;
    let mut m = loaded(&image);
    let mut sink = String::new();
    assert_eq!(m.run(100, &mut sink), Stop::Halted);
    assert_eq!(m.registers()[10], 7);
    assert_eq!(m.sp(), 0);
    assert_eq!(m.stack()[1], 0x202);
    assert_eq!(sink, "2210\n6A07\n0\nFFFF\nExiting...\n");
}

#[test]
fn jump_sets_the_program_counter() {
    let mut m = loaded(&[0x1A, 0xBC]);
    assert_eq!(step(&mut m).0, Ok(Event::Executed));
    assert_eq!(m.pc(), 0xABC);
}

#[test]
fn jump_offset_adds_register_zero() {
    let mut m = loaded(&[0x60, 0xFF, 0xBF, 0xFF]);
    assert_eq!(step(&mut m).0, Ok(Event::Executed));
    assert_eq!(step(&mut m).0, Ok(Event::Executed));
    assert_eq!(m.pc(), 0x10FE);
    assert_eq!(step(&mut m), (Err(Fault::PcOutOfBounds), String::new()));
    assert_eq!(m.pc(), 0x10FE);
}

#[test]
fn register_operations_through_dispatch() {
    let mut m = loaded(&[
        0x61, 0x0C, 0x62, 0x0A, 0x83, 0x20, 0x83, 0x11, 0x84, 0x20, 0x84, 0x12, 0x85, 0x20, 0x85,
        0x13, 0x86, 0x10, 0x86, 0x25, 0x87, 0x10, 0x87, 0x27, 0x88, 0x10, 0x88, 0x06, 0x89, 0x10,
        0x89, 0x0E,
    ]);
    let mut sink = String::new();
    assert_eq!(m.run(16, &mut sink), Stop::OutOfCycles);
    let r = m.registers();
    assert_eq!(r[1], 0x0C);
    assert_eq!(r[2], 0x0A);
    assert_eq!(r[3], 0x0E);
    assert_eq!(r[4], 0x08);
    assert_eq!(r[5], 0x06);
    assert_eq!(r[6], 0x02);
    assert_eq!(r[7], 0xFE);
    assert_eq!(r[8], 0x06);
    assert_eq!(r[9], 0x18);
    assert_eq!(r[15], 0);
    assert_eq!(m.pc(), 512 + 32);
}

#[test]
fn index_and_block_operations_through_dispatch() {
    let mut m = loaded(&[
        0x60, 0x01, 0x61, 0x02, 0x62, 0x03, 0xA3, 0x00, 0xE2, 0x00, 0xC2, 0x00, 0x60, 0x00, 0x61,
        0x00, 0xA3, 0x01, 0xF1, 0x00, 0xF1, 0x02,
    ]);
    let mut sink = String::new();
    assert_eq!(m.run(6, &mut sink), Stop::OutOfCycles);
    assert_eq!(&m.memory()[0x300..0x304], &[1, 2, 3, 0]);
    assert_eq!(m.index(), 0x303);
    let mut sink = String::new();
    assert_eq!(m.run(5, &mut sink), Stop::OutOfCycles);
    assert_eq!(&m.registers()[0..3], &[2, 3, 3]);
    assert_eq!(sink, "6000\n6100\nA301\nF100\nF102\n2 3 ");
}

#[test]
fn unknown_sub_operation_is_reported_and_skipped() {
    let mut m = loaded(&[0x81, 0x28, 0xF3, 0x05, 0x61, 0x09]);
    assert_eq!(
        step(&mut m),
        (Ok(Event::Unrecognized), String::from("8128\nUnknown instruction: 8128\n"))
    );
    assert_eq!(m.pc(), 514);
    assert_eq!(
        step(&mut m),
        (Ok(Event::Unrecognized), String::from("F305\nUnknown instruction: F305\n"))
    );
    assert_eq!(m.pc(), 516);
    assert!(m.registers().iter().all(|&r| r == 0));
    assert_eq!(step(&mut m).0, Ok(Event::Executed));
    assert_eq!(m.registers()[1], 9);
}

#[test]
fn run_goes_on_after_an_unknown_instruction() {
    let mut m = loaded(&[0x80, 0x0F, 0xFF, 0xFF]);
    let mut sink = String::new();
    assert_eq!(m.run(10, &mut sink), Stop::Halted);
    assert_eq!(sink, "800F\nUnknown instruction: 800F\nFFFF\nExiting...\n");
}

#[test]
fn halt_ignores_the_middle_nibbles() {
    let mut m = loaded(&[0xF0, 0x0F]);
    assert_eq!(step(&mut m), (Ok(Event::Halted), String::from("F00F\nExiting...\n")));
    assert_eq!(m.pc(), 514);
}

#[test]
fn run_stops_when_the_budget_is_used_up() {
    let mut m = loaded(&[0x12, 0x00]);
    let mut sink = String::new();
    assert_eq!(m.run(5, &mut sink), Stop::OutOfCycles);
    assert_eq!(sink, "1200\n1200\n1200\n1200\n1200\n");
    assert_eq!(m.pc(), 512);
}

#[test]
fn run_of_no_cycles_does_nothing() {
    let mut m = loaded(&[0x60, 0x11]);
    let mut sink = String::from("kept");
    assert_eq!(m.run(0, &mut sink), Stop::OutOfCycles);
    assert_eq!(sink, "kept");
    assert_eq!(m.pc(), 512);
    assert_eq!(m.registers()[0], 0);
}

#[test]
fn run_in_two_parts_is_the_whole_run() {
    let program = [0x60, 0x11, 0x61, 0x22, 0x80, 0x14, 0xF0, 0x01, 0xFF, 0xFF];
    let mut whole = loaded(&program);
    let mut whole_text = String::new();
    let whole_stop = whole.run(8, &mut whole_text);
    let mut parts = loaded(&program);
    let mut parts_text = String::new();
    assert_eq!(parts.run(2, &mut parts_text), Stop::OutOfCycles);
    let parts_stop = parts.run(6, &mut parts_text);
    assert_eq!(parts_stop, whole_stop);
    assert_eq!(parts_text, whole_text);
    assert_eq!(parts.registers(), whole.registers());
    assert_eq!(parts.pc(), whole.pc());
}

#[test]
fn run_off_the_end_of_memory_faults() {
    let mut image = vec![0u8; 4096 - 512];
    image[0] = 0x1F;
    image[1] = 0xFE;
    image[4094 - 512] = 0x60;
    image[4095 - 512] = 0x11;
    let mut m = loaded(&image);
    let mut sink = String::new();
    assert_eq!(m.run(10, &mut sink), Stop::Faulted(Fault::PcOutOfBounds));
    assert_eq!(sink, "1FFE\n6011\n");
    assert_eq!(m.pc(), 4096);
    assert_eq!(m.registers()[0], 0x11);
}

#[test]
fn fetch_fault_emits_nothing_and_changes_nothing() {
    let mut m = loaded(&[0x1F, 0xFF]);
    assert_eq!(step(&mut m).0, Ok(Event::Executed));
    assert_eq!(m.pc(), 4095);
    assert_eq!(step(&mut m), (Err(Fault::PcOutOfBounds), String::new()));
    assert_eq!(m.pc(), 4095);
}

#[test]
fn nested_calls_overflow_the_stack() {
    let mut m = loaded(&[0x22, 0x00]);
    let mut sink = String::new();
    assert_eq!(m.run(100, &mut sink), Stop::Faulted(Fault::StackOverflow));
    assert_eq!(m.sp(), 15);
    assert_eq!(sink, "2200\n".repeat(16));
    assert_eq!(m.pc(), 514);
    for slot in 1..16 {
        assert_eq!(m.stack()[slot], 514);
    }
}

#[test]
fn memory_operations_fault_past_the_end_of_memory() {
    let mut m = loaded(&[0xAF, 0xFE, 0xD0, 0x00]);
    let mut sink = String::new();
    assert_eq!(m.run(10, &mut sink), Stop::Faulted(Fault::MemoryOutOfBounds));
    assert_eq!(m.pc(), 516);
    let mut m = loaded(&[0xAF, 0xFF, 0xE1, 0x00]);
    assert_eq!(m.run(10, &mut sink), Stop::Faulted(Fault::MemoryOutOfBounds));
    let mut m = loaded(&[0xAF, 0xFF, 0xF1, 0x00]);
    assert_eq!(m.run(10, &mut sink), Stop::Faulted(Fault::MemoryOutOfBounds));
    let mut m = loaded(&[0xAF, 0xFF, 0xF1, 0x02]);
    let mut sink = String::new();
    assert_eq!(m.run(10, &mut sink), Stop::Faulted(Fault::MemoryOutOfBounds));
    assert_eq!(sink, "AFFF\nF102\n");
}

#[test]
fn add_index_is_exact_up_to_sixteen_bits() {
    let mut m = loaded(&[0x61, 0xFF, 0xAF, 0xFF, 0xC1, 0x00, 0x12, 0x04]);
    let mut sink = String::new();
    assert_eq!(m.run(3, &mut sink), Stop::OutOfCycles);
    assert_eq!(m.index(), 0x10FE);
    let stop = m.run(1000, &mut sink);
    assert_eq!(stop, Stop::Faulted(Fault::IndexOverflow));
    assert_eq!(m.index(), 0xFF0F);
}
