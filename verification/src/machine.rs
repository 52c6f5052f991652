//! The executable machine: memory, registers, program counter and stack, and
//! the fetch-decode-execute cycle over them.

use vstd::prelude::*;
use crate::instruction::Instruction;
use crate::state::{
    follows, Event, Fault, LoadError, State, Stop, FLAG, MEMORY_SIZE, PROGRAM_START,
};
use crate::text::{halt_text, push_halt, push_hex_bytes, push_trace, push_unknown, unknown_text};

verus! {

/// The machine. It owns all of its state; every operation takes it by
/// exclusive reference.
pub struct Machine {
    mem: [u8; 4096],
    regs: [u8; 16],
    i: u16,
    pc: u16,
    sp: u8,
    stack: [u16; 16],
}

impl View for Machine {
    type V = State;

    closed spec fn view(&self) -> State {
        State {
            mem: self.mem@,
            regs: self.regs@,
            index: self.i,
            pc: self.pc,
            sp: self.sp,
            stack: self.stack@,
        }
    }
}

impl Machine {
    #[verifier::type_invariant]
    spec fn stack_pointer_in_range(&self) -> bool {
        self.sp < 16
    }

    /// A machine with memory, registers and stack zeroed and the program
    /// counter at the program start.
    pub fn new() -> (m: Self)
        ensures
            m@ == State::initial(),
            m@.wf(),
    {
        let m = Machine {
            mem: [0; 4096],
            regs: [0; 16],
            i: 0,
            pc: PROGRAM_START,
            sp: 0,
            stack: [0; 16],
        };
        m
    }

    /// Copies a program image into memory from the program start on.
    ///
    /// An image that does not fit is refused and nothing is written.
    pub fn load(&mut self, program: &[u8]) -> (r: Result<(), LoadError>)
        ensures
            final(self)@.wf(),
            old(self)@.load(program@) matches Ok(next) ==> r is Ok && final(self)@ == next,
            old(self)@.load(program@) matches Err(e) ==> r == Err::<(), LoadError>(e)
                && final(self)@ == old(self)@,
    {
        proof {
            use_type_invariant(&*self);
        }
        let len = program.len();
        if len > MEMORY_SIZE - PROGRAM_START as usize {
            return Err(LoadError::TooLarge);
        }
        let mut k: usize = 0;
        while k < len
            invariant
                len == program@.len(),
                len <= MEMORY_SIZE - PROGRAM_START,
                k <= len,
                self.sp < 16,
                self@ == (State { mem: self@.mem, ..old(self)@ }),
                forall|a: int|
                    0 <= a < MEMORY_SIZE ==> self@.mem[a] == if PROGRAM_START <= a
                        < PROGRAM_START + k {
                        program@[a - PROGRAM_START]
                    } else {
                        old(self)@.mem[a]
                    },
            decreases len - k,
        {
            self.mem[PROGRAM_START as usize + k] = program[k];
            k += 1;
        }
        Ok(())
    }

    /// The program counter.
    pub fn pc(&self) -> (r: u16)
        ensures
            r == self@.pc,
    {
        self.pc
    }

    /// The stack pointer.
    pub fn sp(&self) -> (r: u8)
        ensures
            r == self@.sp,
            r < 16,
    {
        proof {
            use_type_invariant(self);
        }
        self.sp
    }

    /// The index register.
    pub fn index(&self) -> (r: u16)
        ensures
            r == self@.index,
    {
        self.i
    }

    /// The registers.
    pub fn registers(&self) -> (r: &[u8; 16])
        ensures
            r@ == self@.regs,
    {
        &self.regs
    }

    /// Memory.
    pub fn memory(&self) -> (r: &[u8; 4096])
        ensures
            r@ == self@.mem,
    {
        &self.mem
    }

    /// The return addresses.
    pub fn stack(&self) -> (r: &[u16; 16])
        ensures
            r@ == self@.stack,
    {
        &self.stack
    }

    /// Reads the instruction at the program counter and moves the program
    /// counter past it.
    pub fn fetch(&mut self) -> (r: Result<Instruction, Fault>)
        ensures
            final(self)@.wf(),
            old(self)@.fetch() matches Ok((word, next)) ==> r == Ok::<Instruction, Fault>(word)
                && final(self)@ == next,
            old(self)@.fetch() matches Err(fault) ==> r == Err::<Instruction, Fault>(fault)
                && final(self)@ == old(self)@,
    {
        proof {
            use_type_invariant(&*self);
        }
        if self.pc as usize + 1 >= MEMORY_SIZE {
            return Err(Fault::PcOutOfBounds);
        }
        let word = Instruction::from_bytes(
            [self.mem[self.pc as usize], self.mem[(self.pc + 1) as usize]],
        );
        self.pc += 2;
        Ok(word)
    }

    /// `return`: resumes after the innermost outstanding call.
    pub fn ret(&mut self) -> (r: Result<(), Fault>)
        ensures
            final(self)@.wf(),
            follows(old(self)@, old(self)@.ret(), r, final(self)@),
    {
        proof {
            use_type_invariant(&*self);
        }
        if self.sp == 0 {
            return Err(Fault::StackUnderflow);
        }
        self.pc = self.stack[self.sp as usize];
        self.sp -= 1;
        Ok(())
    }

    /// `jump`: continues at `addr`.
    pub fn jmp(&mut self, addr: u16)
        ensures
            final(self)@.wf(),
            final(self)@ == old(self)@.jump(addr),
    {
        proof {
            use_type_invariant(&*self);
        }
        self.pc = addr;
    }

    /// `call`: saves the program counter and continues at `addr`.
    pub fn call(&mut self, addr: u16) -> (r: Result<(), Fault>)
        ensures
            final(self)@.wf(),
            follows(old(self)@, old(self)@.call(addr), r, final(self)@),
    {
        proof {
            use_type_invariant(&*self);
        }
        if self.sp >= 15 {
            return Err(Fault::StackOverflow);
        }
        self.sp += 1;
        self.stack[self.sp as usize] = self.pc;
        self.pc = addr;
        Ok(())
    }

    /// `skip-eq-imm`: skips the next instruction if register `x` equals
    /// `byte`.
    pub fn eq(&mut self, x: u8, byte: u8)
        requires
            x < 16,
            old(self)@.pc + 2 <= u16::MAX,
        ensures
            final(self)@.wf(),
            final(self)@ == old(self)@.skip_if(old(self)@.regs[x as int] == byte),
    {
        proof {
            use_type_invariant(&*self);
        }
        if self.regs[x as usize] == byte {
            self.pc += 2;
        }
    }

    /// `skip-neq-imm`: skips the next instruction if register `x` differs
    /// from `byte`.
    pub fn neq(&mut self, x: u8, byte: u8)
        requires
            x < 16,
            old(self)@.pc + 2 <= u16::MAX,
        ensures
            final(self)@.wf(),
            final(self)@ == old(self)@.skip_if(old(self)@.regs[x as int] != byte),
    {
        proof {
            use_type_invariant(&*self);
        }
        if self.regs[x as usize] != byte {
            self.pc += 2;
        }
    }

    /// `skip-eq-reg`: skips the next instruction if registers `x` and `y` are
    /// equal.
    pub fn eq_xy(&mut self, x: u8, y: u8)
        requires
            x < 16,
            y < 16,
            old(self)@.pc + 2 <= u16::MAX,
        ensures
            final(self)@.wf(),
            final(self)@ == old(self)@.skip_if(
                old(self)@.regs[x as int] == old(self)@.regs[y as int],
            ),
    {
        proof {
            use_type_invariant(&*self);
        }
        if self.regs[x as usize] == self.regs[y as usize] {
            self.pc += 2;
        }
    }

    /// `skip-neq-reg`: skips the next instruction if registers `x` and `y`
    /// differ.
    pub fn neq_xy(&mut self, x: u8, y: u8)
        requires
            x < 16,
            y < 16,
            old(self)@.pc + 2 <= u16::MAX,
        ensures
            final(self)@.wf(),
            final(self)@ == old(self)@.skip_if(
                old(self)@.regs[x as int] != old(self)@.regs[y as int],
            ),
    {
        proof {
            use_type_invariant(&*self);
        }
        if self.regs[x as usize] != self.regs[y as usize] {
            self.pc += 2;
        }
    }

    /// `load-imm`: sets register `x` to `byte`.
    pub fn ld(&mut self, x: u8, byte: u8)
        requires
            x < 16,
        ensures
            final(self)@.wf(),
            final(self)@ == old(self)@.load_imm(x as int, byte),
    {
        proof {
            use_type_invariant(&*self);
        }
        self.regs[x as usize] = byte;
    }

    /// `add-imm`: adds `byte` to register `x`, wrapping, without touching the
    /// flag register.
    pub fn add(&mut self, x: u8, byte: u8)
        requires
            x < 16,
        ensures
            final(self)@.wf(),
            final(self)@ == old(self)@.add_imm(x as int, byte),
    {
        proof {
            use_type_invariant(&*self);
        }
        self.regs[x as usize] = self.regs[x as usize].wrapping_add(byte);
    }

    /// `move`: copies register `y` to register `x`.
    pub fn ld_xy(&mut self, x: u8, y: u8)
        requires
            x < 16,
            y < 16,
        ensures
            final(self)@.wf(),
            final(self)@ == old(self)@.mov(x as int, y as int),
    {
        proof {
            use_type_invariant(&*self);
        }
        self.regs[x as usize] = self.regs[y as usize];
    }

    /// `or`: ors register `y` into register `x`.
    pub fn or(&mut self, x: u8, y: u8)
        requires
            x < 16,
            y < 16,
        ensures
            final(self)@.wf(),
            final(self)@ == old(self)@.or(x as int, y as int),
    {
        proof {
            use_type_invariant(&*self);
        }
        self.regs[x as usize] = self.regs[x as usize] | self.regs[y as usize];
    }

    /// `and`: ands register `y` into register `x`.
    pub fn and(&mut self, x: u8, y: u8)
        requires
            x < 16,
            y < 16,
        ensures
            final(self)@.wf(),
            final(self)@ == old(self)@.and(x as int, y as int),
    {
        proof {
            use_type_invariant(&*self);
        }
        self.regs[x as usize] = self.regs[x as usize] & self.regs[y as usize];
    }

    /// `xor`: xors register `y` into register `x`.
    pub fn xor(&mut self, x: u8, y: u8)
        requires
            x < 16,
            y < 16,
        ensures
            final(self)@.wf(),
            final(self)@ == old(self)@.xor(x as int, y as int),
    {
        proof {
            use_type_invariant(&*self);
        }
        self.regs[x as usize] = self.regs[x as usize] ^ self.regs[y as usize];
    }

    /// `add-reg`: adds register `y` to register `x`, wrapping, and sets the
    /// flag register to the carry.
    pub fn add_xy(&mut self, x: u8, y: u8)
        requires
            x < 16,
            y < 16,
        ensures
            final(self)@.wf(),
            final(self)@ == old(self)@.add_reg(x as int, y as int),
    {
        proof {
            use_type_invariant(&*self);
        }
        let a = self.regs[x as usize];
        let b = self.regs[y as usize];
        let carry: u8 = if a as u16 + b as u16 > 255 { 1 } else { 0 };
        self.regs[x as usize] = a.wrapping_add(b);
        self.regs[FLAG] = carry;
    }

    /// `sub-reg`: subtracts register `y` from register `x`, wrapping, and sets
    /// the flag register to 1 if nothing was borrowed.
    pub fn sub_xy(&mut self, x: u8, y: u8)
        requires
            x < 16,
            y < 16,
        ensures
            final(self)@.wf(),
            final(self)@ == old(self)@.sub_reg(x as int, y as int),
    {
        proof {
            use_type_invariant(&*self);
        }
        let a = self.regs[x as usize];
        let b = self.regs[y as usize];
        let no_borrow: u8 = if a >= b { 1 } else { 0 };
        self.regs[x as usize] = a.wrapping_sub(b);
        self.regs[FLAG] = no_borrow;
    }

    /// `shift-right`: sets the flag register to the lowest bit of register
    /// `x`, then shifts register `x` right by one.
    pub fn shr(&mut self, x: u8)
        requires
            x < 16,
        ensures
            final(self)@.wf(),
            final(self)@ == old(self)@.shift_right(x as int),
    {
        proof {
            use_type_invariant(&*self);
        }
        let a = self.regs[x as usize];
        assert(a & 0x1 == a % 2) by (bit_vector);
        self.regs[FLAG] = a & 0x1;
        let v = self.regs[x as usize];
        assert(v >> 1 == v / 2) by (bit_vector);
        self.regs[x as usize] = v >> 1;
    }

    /// `subn-reg`: sets register `x` to register `y` minus register `x`,
    /// wrapping, and sets the flag register to 1 if nothing was borrowed.
    pub fn subn_xy(&mut self, x: u8, y: u8)
        requires
            x < 16,
            y < 16,
        ensures
            final(self)@.wf(),
            final(self)@ == old(self)@.subn_reg(x as int, y as int),
    {
        proof {
            use_type_invariant(&*self);
        }
        let a = self.regs[x as usize];
        let b = self.regs[y as usize];
        let no_borrow: u8 = if b >= a { 1 } else { 0 };
        self.regs[x as usize] = b.wrapping_sub(a);
        self.regs[FLAG] = no_borrow;
    }

    /// `shift-left`: sets the flag register to the highest bit of register
    /// `x`, then shifts register `x` left by one.
    pub fn shl(&mut self, x: u8)
        requires
            x < 16,
        ensures
            final(self)@.wf(),
            final(self)@ == old(self)@.shift_left(x as int),
    {
        proof {
            use_type_invariant(&*self);
        }
        let a = self.regs[x as usize];
        assert(a >> 7 == a / 128) by (bit_vector);
        self.regs[FLAG] = a >> 7;
        let v = self.regs[x as usize];
        assert(v << 1 == (v * 2) % 256) by (bit_vector);
        self.regs[x as usize] = v << 1;
    }

    /// `load-index`: sets the index register to `addr`.
    pub fn ld_i(&mut self, addr: u16)
        ensures
            final(self)@.wf(),
            final(self)@ == old(self)@.load_index(addr),
    {
        proof {
            use_type_invariant(&*self);
        }
        self.i = addr;
    }

    /// `jump-offset`: continues at `addr` plus register 0.
    pub fn jmp_v0(&mut self, addr: u16)
        requires
            addr + old(self)@.regs[0] <= u16::MAX,
        ensures
            final(self)@.wf(),
            final(self)@ == old(self)@.jump_offset(addr),
    {
        proof {
            use_type_invariant(&*self);
        }
        self.pc = addr + self.regs[0] as u16;
    }

    /// `add-index`: adds register `x` to the index register.
    pub fn add_i(&mut self, x: u8) -> (r: Result<(), Fault>)
        requires
            x < 16,
        ensures
            final(self)@.wf(),
            follows(old(self)@, old(self)@.add_index(x as int), r, final(self)@),
    {
        proof {
            use_type_invariant(&*self);
        }
        match self.i.checked_add(self.regs[x as usize] as u16) {
            Some(sum) => {
                self.i = sum;
                Ok(())
            },
            None => Err(Fault::IndexOverflow),
        }
    }

    /// `bcd`: stores the hundreds, tens and ones digit of register `x` at the
    /// index register and the two addresses after it.
    pub fn bcd(&mut self, x: u8) -> (r: Result<(), Fault>)
        requires
            x < 16,
        ensures
            final(self)@.wf(),
            follows(old(self)@, old(self)@.bcd(x as int), r, final(self)@),
    {
        proof {
            use_type_invariant(&*self);
        }
        if self.i as usize + 2 >= MEMORY_SIZE {
            return Err(Fault::MemoryOutOfBounds);
        }
        let at = self.i as usize;
        let mut val = self.regs[x as usize];
        self.mem[at + 2] = val % 10;
        val = val / 10;
        self.mem[at + 1] = val % 10;
        val = val / 10;
        self.mem[at] = val % 10;
        assert(self@.mem =~= old(self)@.bcd(x as int)->Ok_0.mem);
        Ok(())
    }

    /// `store-block`: stores registers 0 to `x` at the index register and the
    /// addresses after it.
    pub fn ld_0x(&mut self, x: u8) -> (r: Result<(), Fault>)
        requires
            x < 16,
        ensures
            final(self)@.wf(),
            follows(old(self)@, old(self)@.store_block(x as int), r, final(self)@),
    {
        proof {
            use_type_invariant(&*self);
        }
        if self.i as usize + x as usize >= MEMORY_SIZE {
            return Err(Fault::MemoryOutOfBounds);
        }
        let at = self.i as usize;
        let mut k: usize = 0;
        while k <= x as usize
            invariant
                x < 16,
                at + x < MEMORY_SIZE,
                k <= x + 1,
                self.sp < 16,
                self.i == at,
                self@ == (State { mem: self@.mem, ..old(self)@ }),
                forall|a: int|
                    0 <= a < MEMORY_SIZE ==> self@.mem[a] == if at <= a < at + k {
                        old(self)@.regs[a - at]
                    } else {
                        old(self)@.mem[a]
                    },
            decreases x + 1 - k,
        {
            self.mem[at + k] = self.regs[k];
            k += 1;
        }
        assert(self@.mem =~= old(self)@.store_block(x as int)->Ok_0.mem);
        Ok(())
    }

    /// `load-block`: reads registers 0 to `x` from the index register and the
    /// addresses after it.
    pub fn ld_x0(&mut self, x: u8) -> (r: Result<(), Fault>)
        requires
            x < 16,
        ensures
            final(self)@.wf(),
            follows(old(self)@, old(self)@.load_block(x as int), r, final(self)@),
    {
        proof {
            use_type_invariant(&*self);
        }
        if self.i as usize + x as usize >= MEMORY_SIZE {
            return Err(Fault::MemoryOutOfBounds);
        }
        let at = self.i as usize;
        let mut k: usize = 0;
        while k <= x as usize
            invariant
                x < 16,
                at + x < MEMORY_SIZE,
                k <= x + 1,
                self.sp < 16,
                self.i == at,
                self@ == (State { regs: self@.regs, ..old(self)@ }),
                forall|r: int|
                    0 <= r < 16 ==> self@.regs[r] == if r < k {
                        old(self)@.mem[at + r]
                    } else {
                        old(self)@.regs[r]
                    },
            decreases x + 1 - k,
        {
            self.regs[k] = self.mem[at + k];
            k += 1;
        }
        assert(self@.regs =~= old(self)@.load_block(x as int)->Ok_0.regs);
        Ok(())
    }

    /// `print-regs`: emits registers 0 to `x`.
    pub fn out(&mut self, x: u8, sink: &mut String)
        requires
            x < 16,
        ensures
            final(self)@.wf(),
            final(self)@ == old(self)@,
            final(sink)@ == old(sink)@ + old(self)@.regs_text(x as int),
    {
        proof {
            use_type_invariant(&*self);
        }
        push_hex_bytes(sink, &self.regs, 0, x as usize + 1);
    }

    /// `print-mem`: emits the bytes at the index register and the `x`
    /// addresses after it.
    pub fn out_i(&mut self, x: u8, sink: &mut String) -> (r: Result<(), Fault>)
        requires
            x < 16,
        ensures
            final(self)@.wf(),
            final(self)@ == old(self)@,
            old(self)@.mem_text(x as int) matches Ok(text) ==> r is Ok
                && final(sink)@ == old(sink)@ + text,
            old(self)@.mem_text(x as int) matches Err(fault) ==> r == Err::<(), Fault>(fault)
                && final(sink)@ == old(sink)@,
    {
        proof {
            use_type_invariant(&*self);
        }
        if self.i as usize + x as usize >= MEMORY_SIZE {
            return Err(Fault::MemoryOutOfBounds);
        }
        let at = self.i as usize;
        push_hex_bytes(sink, &self.mem, at, at + x as usize + 1);
        Ok(())
    }

    /// `halt`: emits the halt notice.
    pub fn exit(&mut self, sink: &mut String)
        ensures
            final(self)@.wf(),
            final(self)@ == old(self)@,
            final(sink)@ == old(sink)@ + halt_text(),
    {
        proof {
            use_type_invariant(&*self);
        }
        push_halt(sink);
    }

    /// Reports a word that names no operation.
    pub fn err(&mut self, instr: Instruction, sink: &mut String)
        ensures
            final(self)@.wf(),
            final(self)@ == old(self)@,
            final(sink)@ == old(sink)@ + unknown_text(instr.0),
    {
        proof {
            use_type_invariant(&*self);
        }
        push_unknown(sink, instr.0);
    }

    /// One cycle: fetches the instruction at the program counter, appends its
    /// trace line to `sink`, and carries it out.
    ///
    /// An out-of-bounds fetch changes nothing. A fault in the instruction
    /// leaves the program counter past it and everything else as it was.
    pub fn dispatch(&mut self, sink: &mut String) -> (r: Result<Event, Fault>)
        ensures
            final(self)@.wf(),
            r == old(self)@.cycle().result,
            final(self)@ == old(self)@.cycle().state,
            final(sink)@ == old(sink)@ + old(self)@.cycle().text,
    {
        proof {
            use_type_invariant(&*self);
        }
        let instr = match self.fetch() {
            Ok(instr) => instr,
            Err(fault) => {
                return Err(fault);
            },
        };
        push_trace(sink, instr.0);
        let x = instr.x();
        let y = instr.y();
        match instr.opcode() {
            0x0 => self.ret()?,
            0x1 => self.jmp(instr.nnn()),
            0x2 => self.call(instr.nnn())?,
            0x3 => self.eq(x, instr.kk()),
            0x4 => self.neq(x, instr.kk()),
            0x5 => self.eq_xy(x, y),
            0x6 => self.ld(x, instr.kk()),
            0x7 => self.add(x, instr.kk()),
            0x8 => match instr.n() {
                0x0 => self.ld_xy(x, y),
                0x1 => self.or(x, y),
                0x2 => self.and(x, y),
                0x3 => self.xor(x, y),
                0x4 => self.add_xy(x, y),
                0x5 => self.sub_xy(x, y),
                0x6 => self.shr(x),
                0x7 => self.subn_xy(x, y),
                0xE => self.shl(x),
                _ => {
                    self.err(instr, sink);
                    return Ok(Event::Unrecognized);
                },
            },
            0x9 => self.neq_xy(x, y),
            0xA => self.ld_i(instr.nnn()),
            0xB => self.jmp_v0(instr.nnn()),
            0xC => self.add_i(x)?,
            0xD => self.bcd(x)?,
            0xE => self.ld_0x(x)?,
            0xF => match instr.n() {
                0x0 => self.ld_x0(x)?,
                0x1 => self.out(x, sink),
                0x2 => self.out_i(x, sink)?,
                0xF => {
                    self.exit(sink);
                    return Ok(Event::Halted);
                },
                _ => {
                    self.err(instr, sink);
                    return Ok(Event::Unrecognized);
                },
            },
            _ => {
                self.err(instr, sink);
                return Ok(Event::Unrecognized);
            },
        }
        Ok(Event::Executed)
    }

    /// Runs cycles until one halts or faults, or until `cycles` of them have
    /// run, appending everything they emit to `sink`.
    pub fn run(&mut self, cycles: u64, sink: &mut String) -> (stop: Stop)
        ensures
            final(self)@.wf(),
            stop == old(self)@.run(cycles as nat).stop,
            final(self)@ == old(self)@.run(cycles as nat).state,
            final(sink)@ == old(sink)@ + old(self)@.run(cycles as nat).text,
    {
        proof {
            use_type_invariant(&*self);
        }
        let ghost whole = old(self)@.run(cycles as nat);
        let mut left = cycles;
        while left > 0
            invariant
                self.sp < 16,
                whole == old(self)@.run(cycles as nat),
                self@.run(left as nat).stop == whole.stop,
                self@.run(left as nat).state == whole.state,
                sink@ + self@.run(left as nat).text == old(sink)@ + whole.text,
            decreases left,
        {
            match self.dispatch(sink) {
                Err(fault) => {
                    return Stop::Faulted(fault);
                },
                Ok(Event::Halted) => {
                    return Stop::Halted;
                },
                Ok(_) => {},
            }
            left -= 1;
        }
        Stop::OutOfCycles
    }
}

} // verus!
