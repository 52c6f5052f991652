//! The machine as a mathematical value: its state, and what each operation
//! does to it.
//!
//! Everything here is specification. The executable machine is described by
//! these functions: each of its methods ends in the state that the function of
//! the same meaning gives.

use vstd::prelude::*;
use crate::instruction::Instruction;
use crate::text::{halt_text, hex_bytes, trace_text, unknown_text};

verus! {

/// A structural anomaly that ends a run.
#[derive(Debug, Clone, Copy, PartialEq, Eq, Structural)]
pub enum Fault {
    /// The two bytes at the program counter do not both lie in memory.
    PcOutOfBounds,
    /// `return` with no call outstanding.
    StackUnderflow,
    /// `call` with every usable stack slot taken.
    StackOverflow,
    /// An indexed memory operation would reach past the end of memory.
    MemoryOutOfBounds,
    /// `add-index` would carry the index register past 16 bits.
    IndexOverflow,
}

/// What one completed cycle amounted to.
#[derive(Debug, Clone, Copy, PartialEq, Eq, Structural)]
pub enum Event {
    /// A recognized operation ran.
    Executed,
    /// The word names no operation; nothing but the program counter changed.
    Unrecognized,
    /// The halt operation ran.
    Halted,
}

/// Why a run stopped.
#[derive(Debug, Clone, Copy, PartialEq, Eq, Structural)]
pub enum Stop {
    /// The halt operation ran.
    Halted,
    /// A cycle ended in a fault.
    Faulted(Fault),
    /// The cycle budget ran out first.
    OutOfCycles,
}

/// Why a program image was refused.
#[derive(Debug, Clone, Copy, PartialEq, Eq, Structural)]
pub enum LoadError {
    /// The image does not fit between the program start and the end of memory.
    TooLarge,
}

/// Number of addressable bytes.
pub const MEMORY_SIZE: usize = 4096;

/// Address of the first byte of a loaded program.
pub const PROGRAM_START: u16 = 512;

/// Index of the register that receives carry, borrow and shifted-out bits.
pub const FLAG: usize = 15;

/// The state of the machine.
#[verifier::ext_equal]
pub struct State {
    /// Memory, one byte per address.
    pub mem: Seq<u8>,
    /// The general-purpose registers; the last one is the flag register.
    pub regs: Seq<u8>,
    /// The index register.
    pub index: u16,
    /// The program counter.
    pub pc: u16,
    /// The stack pointer: the slot of the innermost return address, 0 when no
    /// call is outstanding.
    pub sp: u8,
    /// The return addresses.
    pub stack: Seq<u16>,
}

/// The result of one cycle, or of the work of one instruction.
#[verifier::ext_equal]
pub struct Step {
    /// The state it ends in.
    pub state: State,
    /// The text it emits.
    pub text: Seq<char>,
    /// How it ended.
    pub result: Result<Event, Fault>,
}

/// The result of a run of cycles.
#[verifier::ext_equal]
pub struct Run {
    /// The state it ends in.
    pub state: State,
    /// The text it emits, from first cycle to last.
    pub text: Seq<char>,
    /// Why it stopped.
    pub stop: Stop,
}

/// An operation that may fault went as `outcome` says: it succeeded and left
/// the state that `outcome` holds, or it reported the fault that `outcome`
/// holds and left `before` as it was.
pub open spec fn follows(
    before: State,
    outcome: Result<State, Fault>,
    result: Result<(), Fault>,
    after: State,
) -> bool {
    match outcome {
        Ok(next) => result is Ok && after == next,
        Err(fault) => result == Err::<(), Fault>(fault) && after == before,
    }
}

impl Run {
    /// This run, which used up its budget, continued by `next` from where it
    /// ended.
    pub open spec fn followed_by(self, next: Run) -> Run {
        Run { state: next.state, text: self.text + next.text, stop: next.stop }
    }
}

impl State {
    /// The sizes are right and the stack pointer names a slot.
    pub open spec fn wf(self) -> bool {
        &&& self.mem.len() == MEMORY_SIZE
        &&& self.regs.len() == 16
        &&& self.stack.len() == 16
        &&& self.sp < 16
    }

    /// The state of a new machine: everything zero but the program counter.
    pub open spec fn initial() -> State {
        State {
            mem: Seq::new(MEMORY_SIZE as nat, |a: int| 0u8),
            regs: Seq::new(16, |r: int| 0u8),
            index: 0,
            pc: PROGRAM_START,
            sp: 0,
            stack: Seq::new(16, |k: int| 0u16),
        }
    }

    /// This state with register `x` holding `v`.
    pub open spec fn with_reg(self, x: int, v: u8) -> State {
        State { regs: self.regs.update(x, v), ..self }
    }

    /// This state with the program counter at `pc`.
    pub open spec fn with_pc(self, pc: u16) -> State {
        State { pc, ..self }
    }

    /// Loading a program image: its bytes replace memory from the program
    /// start on. An image that would reach past the end of memory is refused.
    pub open spec fn load(self, program: Seq<u8>) -> Result<State, LoadError> {
        if program.len() > MEMORY_SIZE - PROGRAM_START {
            Err(LoadError::TooLarge)
        } else {
            Ok(
                State {
                    mem: Seq::new(
                        MEMORY_SIZE as nat,
                        |a: int|
                            if PROGRAM_START <= a < PROGRAM_START + program.len() {
                                program[a - PROGRAM_START]
                            } else {
                                self.mem[a]
                            },
                    ),
                    ..self
                },
            )
        }
    }

    /// The instruction word at the program counter, most significant byte
    /// first.
    pub open spec fn word_at_pc(self) -> Instruction {
        Instruction::spec_from_bytes(self.mem[self.pc as int], self.mem[self.pc + 1])
    }

    /// Fetching: the word at the program counter, and the program counter
    /// moved past it. It is a fault if the two bytes do not both lie in
    /// memory.
    pub open spec fn fetch(self) -> Result<(Instruction, State), Fault> {
        if self.pc + 1 >= MEMORY_SIZE {
            Err(Fault::PcOutOfBounds)
        } else {
            Ok((self.word_at_pc(), self.with_pc((self.pc + 2) as u16)))
        }
    }

    /// `return`: the program counter takes the innermost return address and
    /// the stack pointer steps down.
    pub open spec fn ret(self) -> Result<State, Fault> {
        if self.sp == 0 {
            Err(Fault::StackUnderflow)
        } else {
            Ok(State { pc: self.stack[self.sp as int], sp: (self.sp - 1) as u8, ..self })
        }
    }

    /// `jump`: the program counter becomes `addr`.
    pub open spec fn jump(self, addr: u16) -> State {
        self.with_pc(addr)
    }

    /// `call`: the stack pointer steps up, the program counter is saved in the
    /// new slot, and the program counter becomes `addr`.
    pub open spec fn call(self, addr: u16) -> Result<State, Fault> {
        if self.sp >= 15 {
            Err(Fault::StackOverflow)
        } else {
            Ok(
                State {
                    sp: (self.sp + 1) as u8,
                    stack: self.stack.update(self.sp + 1, self.pc),
                    pc: addr,
                    ..self
                },
            )
        }
    }

    /// A conditional skip: the program counter moves on by 2 if `taken`.
    pub open spec fn skip_if(self, taken: bool) -> State {
        if taken {
            self.with_pc((self.pc + 2) as u16)
        } else {
            self
        }
    }

    /// `load-imm`: register `x` becomes `kk`.
    pub open spec fn load_imm(self, x: int, kk: u8) -> State {
        self.with_reg(x, kk)
    }

    /// `add-imm`: register `x` becomes its sum with `kk` modulo 256. No flag.
    pub open spec fn add_imm(self, x: int, kk: u8) -> State {
        self.with_reg(x, ((self.regs[x] + kk) % 256) as u8)
    }

    /// `move`: register `x` becomes register `y`.
    pub open spec fn mov(self, x: int, y: int) -> State {
        self.with_reg(x, self.regs[y])
    }

    /// `or`: register `x` becomes its bitwise or with register `y`.
    pub open spec fn or(self, x: int, y: int) -> State {
        self.with_reg(x, self.regs[x] | self.regs[y])
    }

    /// `and`: register `x` becomes its bitwise and with register `y`.
    pub open spec fn and(self, x: int, y: int) -> State {
        self.with_reg(x, self.regs[x] & self.regs[y])
    }

    /// `xor`: register `x` becomes its bitwise exclusive or with register `y`.
    pub open spec fn xor(self, x: int, y: int) -> State {
        self.with_reg(x, self.regs[x] ^ self.regs[y])
    }

    /// `add-reg`: register `x` becomes its sum with register `y` modulo 256,
    /// then the flag register becomes 1 if the sum did not fit in 8 bits and 0
    /// otherwise.
    pub open spec fn add_reg(self, x: int, y: int) -> State {
        let sum = self.regs[x] + self.regs[y];
        let carry = if sum >= 256 { 1u8 } else { 0u8 };
        self.with_reg(x, (sum % 256) as u8).with_reg(FLAG as int, carry)
    }

    /// `sub-reg`: register `x` becomes its difference with register `y` modulo
    /// 256, then the flag register becomes 1 if nothing was borrowed and 0
    /// otherwise.
    pub open spec fn sub_reg(self, x: int, y: int) -> State {
        let a = self.regs[x];
        let b = self.regs[y];
        let no_borrow = if a >= b { 1u8 } else { 0u8 };
        self.with_reg(x, ((a - b) % 256) as u8).with_reg(FLAG as int, no_borrow)
    }

    /// `subn-reg`: register `x` becomes register `y` minus register `x` modulo
    /// 256, then the flag register becomes 1 if nothing was borrowed and 0
    /// otherwise.
    pub open spec fn subn_reg(self, x: int, y: int) -> State {
        let a = self.regs[x];
        let b = self.regs[y];
        let no_borrow = if b >= a { 1u8 } else { 0u8 };
        self.with_reg(x, ((b - a) % 256) as u8).with_reg(FLAG as int, no_borrow)
    }

    /// `shift-right`: the flag register becomes the lowest bit of register
    /// `x`, then register `x` is halved.
    pub open spec fn shift_right(self, x: int) -> State {
        let flagged = self.with_reg(FLAG as int, (self.regs[x] % 2) as u8);
        flagged.with_reg(x, (flagged.regs[x] / 2) as u8)
    }

    /// `shift-left`: the flag register becomes the highest bit of register
    /// `x`, then register `x` is doubled modulo 256.
    pub open spec fn shift_left(self, x: int) -> State {
        let flagged = self.with_reg(FLAG as int, (self.regs[x] / 128) as u8);
        flagged.with_reg(x, ((flagged.regs[x] * 2) % 256) as u8)
    }

    /// `load-index`: the index register becomes `addr`.
    pub open spec fn load_index(self, addr: u16) -> State {
        State { index: addr, ..self }
    }

    /// `jump-offset`: the program counter becomes `addr` plus register 0.
    pub open spec fn jump_offset(self, addr: u16) -> State {
        self.with_pc((addr + self.regs[0]) as u16)
    }

    /// `add-index`: register `x` is added to the index register.
    pub open spec fn add_index(self, x: int) -> Result<State, Fault> {
        if self.index + self.regs[x] > 0xffff {
            Err(Fault::IndexOverflow)
        } else {
            Ok(State { index: (self.index + self.regs[x]) as u16, ..self })
        }
    }

    /// `bcd`: the three decimal digits of register `x` are stored at the index
    /// register and the two addresses after it, hundreds first.
    pub open spec fn bcd(self, x: int) -> Result<State, Fault> {
        if self.index + 2 >= MEMORY_SIZE {
            Err(Fault::MemoryOutOfBounds)
        } else {
            let v = self.regs[x];
            let at = self.index as int;
            Ok(
                State {
                    mem: self.mem.update(at, v / 100).update(at + 1, v / 10 % 10).update(
                        at + 2,
                        v % 10,
                    ),
                    ..self
                },
            )
        }
    }

    /// `store-block`: registers 0 to `x` are stored at the index register and
    /// the addresses after it.
    pub open spec fn store_block(self, x: int) -> Result<State, Fault> {
        if self.index + x >= MEMORY_SIZE {
            Err(Fault::MemoryOutOfBounds)
        } else {
            Ok(
                State {
                    mem: Seq::new(
                        MEMORY_SIZE as nat,
                        |a: int|
                            if self.index <= a <= self.index + x {
                                self.regs[a - self.index]
                            } else {
                                self.mem[a]
                            },
                    ),
                    ..self
                },
            )
        }
    }

    /// `load-block`: registers 0 to `x` are read from the index register and
    /// the addresses after it.
    pub open spec fn load_block(self, x: int) -> Result<State, Fault> {
        if self.index + x >= MEMORY_SIZE {
            Err(Fault::MemoryOutOfBounds)
        } else {
            Ok(
                State {
                    regs: Seq::new(
                        16,
                        |r: int|
                            if r <= x {
                                self.mem[self.index + r]
                            } else {
                                self.regs[r]
                            },
                    ),
                    ..self
                },
            )
        }
    }

    /// What `print-regs` emits: registers 0 to `x`.
    pub open spec fn regs_text(self, x: int) -> Seq<char> {
        hex_bytes(self.regs.subrange(0, x + 1))
    }

    /// What `print-mem` emits: the bytes at the index register and the `x`
    /// addresses after it.
    pub open spec fn mem_text(self, x: int) -> Result<Seq<char>, Fault> {
        if self.index + x >= MEMORY_SIZE {
            Err(Fault::MemoryOutOfBounds)
        } else {
            Ok(hex_bytes(self.mem.subrange(self.index as int, self.index + x + 1)))
        }
    }

    /// A step that ends here, emits `text` and reports `event`.
    pub open spec fn done(self, text: Seq<char>, event: Event) -> Step {
        Step { state: self, text, result: Ok(event) }
    }

    /// A step that runs one silent operation.
    pub open spec fn quiet(self) -> Step {
        self.done(Seq::empty(), Event::Executed)
    }

    /// A step that ends here in `fault`, with nothing emitted.
    pub open spec fn faulted(self, fault: Fault) -> Step {
        Step { state: self, text: Seq::empty(), result: Err(fault) }
    }

    /// A step that runs one silent operation which may fault. A fault leaves
    /// this state as it is.
    pub open spec fn attempt(self, outcome: Result<State, Fault>) -> Step {
        match outcome {
            Ok(next) => next.quiet(),
            Err(fault) => self.faulted(fault),
        }
    }

    /// A step that changes nothing and reports that `i` names no operation.
    pub open spec fn unrecognized(self, i: Instruction) -> Step {
        self.done(unknown_text(i.0), Event::Unrecognized)
    }

    /// The register-to-register operations, selector 8: the low four bits
    /// pick the operation.
    pub open spec fn execute_register(self, i: Instruction) -> Step {
        let n = i.n();
        let x = i.x() as int;
        let y = i.y() as int;
        if n == 0x0 {
            self.mov(x, y).quiet()
        } else if n == 0x1 {
            self.or(x, y).quiet()
        } else if n == 0x2 {
            self.and(x, y).quiet()
        } else if n == 0x3 {
            self.xor(x, y).quiet()
        } else if n == 0x4 {
            self.add_reg(x, y).quiet()
        } else if n == 0x5 {
            self.sub_reg(x, y).quiet()
        } else if n == 0x6 {
            self.shift_right(x).quiet()
        } else if n == 0x7 {
            self.subn_reg(x, y).quiet()
        } else if n == 0xE {
            self.shift_left(x).quiet()
        } else {
            self.unrecognized(i)
        }
    }

    /// The block load, the two print operations and halt, selector 15: the
    /// low four bits pick the operation.
    pub open spec fn execute_system(self, i: Instruction) -> Step {
        let n = i.n();
        let x = i.x() as int;
        if n == 0x0 {
            self.attempt(self.load_block(x))
        } else if n == 0x1 {
            self.done(self.regs_text(x), Event::Executed)
        } else if n == 0x2 {
            match self.mem_text(x) {
                Ok(text) => self.done(text, Event::Executed),
                Err(fault) => self.faulted(fault),
            }
        } else if n == 0xF {
            self.done(halt_text(), Event::Halted)
        } else {
            self.unrecognized(i)
        }
    }

    /// The work of one instruction, the program counter already past it.
    ///
    /// The operation selector picks the operation; for the selectors 8 and 15
    /// the low four bits pick among several. A word that names none is
    /// reported and changes nothing.
    pub open spec fn execute(self, i: Instruction) -> Step {
        let op = i.opcode();
        let x = i.x() as int;
        let y = i.y() as int;
        if op == 0x0 {
            self.attempt(self.ret())
        } else if op == 0x1 {
            self.jump(i.nnn()).quiet()
        } else if op == 0x2 {
            self.attempt(self.call(i.nnn()))
        } else if op == 0x3 {
            self.skip_if(self.regs[x] == i.kk()).quiet()
        } else if op == 0x4 {
            self.skip_if(self.regs[x] != i.kk()).quiet()
        } else if op == 0x5 {
            self.skip_if(self.regs[x] == self.regs[y]).quiet()
        } else if op == 0x6 {
            self.load_imm(x, i.kk()).quiet()
        } else if op == 0x7 {
            self.add_imm(x, i.kk()).quiet()
        } else if op == 0x8 {
            self.execute_register(i)
        } else if op == 0x9 {
            self.skip_if(self.regs[x] != self.regs[y]).quiet()
        } else if op == 0xA {
            self.load_index(i.nnn()).quiet()
        } else if op == 0xB {
            self.jump_offset(i.nnn()).quiet()
        } else if op == 0xC {
            self.attempt(self.add_index(x))
        } else if op == 0xD {
            self.attempt(self.bcd(x))
        } else if op == 0xE {
            self.attempt(self.store_block(x))
        } else if op == 0xF {
            self.execute_system(i)
        } else {
            self.unrecognized(i)
        }
    }

    /// One cycle: fetch, trace, execute.
    ///
    /// A fetch that faults changes nothing and emits nothing. Otherwise the
    /// trace line of the word comes first, then what the instruction emits;
    /// if the instruction faults, the program counter stays past it.
    pub open spec fn cycle(self) -> Step {
        match self.fetch() {
            Err(fault) => self.faulted(fault),
            Ok((word, fetched)) => {
                let step = fetched.execute(word);
                Step { text: trace_text(word.0) + step.text, ..step }
            },
        }
    }

    /// At most `cycles` cycles, stopping after the first that halts or faults.
    pub open spec fn run(self, cycles: nat) -> Run
        decreases cycles,
    {
        if cycles == 0 {
            Run { state: self, text: Seq::empty(), stop: Stop::OutOfCycles }
        } else {
            let step = self.cycle();
            match step.result {
                Err(fault) => Run {
                    state: step.state,
                    text: step.text,
                    stop: Stop::Faulted(fault),
                },
                Ok(Event::Halted) => Run {
                    state: step.state,
                    text: step.text,
                    stop: Stop::Halted,
                },
                Ok(_) => {
                    let rest = step.state.run((cycles - 1) as nat);
                    Run { text: step.text + rest.text, ..rest }
                },
            }
        }
    }
}

} // verus!
