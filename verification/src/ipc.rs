//! The processor core: the mathematical model of the whole machine state,
//! one fetch-decode-execute step as a total spec function over that model,
//! and the executable core proved to follow it exactly.

use crate::components::{reg_read, reg_set, Flags, Memory, Registers};
use vstd::prelude::*;

verus! {

/// The whole machine state as mathematical values: the accumulator, the
/// eight registers as a sequence of bytes, the program counter, the program
/// store and the data store as sequences of bytes, and the four flags.
#[verifier::ext_equal]
pub ghost struct MachineState {
    pub acc: u8,
    pub regs: Seq<u8>,
    pub pc: u16,
    pub rom: Seq<u8>,
    pub ram: Seq<u8>,
    pub carry: bool,
    pub zero: bool,
    pub parity: bool,
    pub sign: bool,
}

impl MachineState {
    /// A machine state is well formed when the register file has exactly
    /// eight slots and each store one byte per 16-bit address.
    pub open spec fn wf(&self) -> bool {
        &&& self.regs.len() == 8
        &&& self.rom.len() == 65536
        &&& self.ram.len() == 65536
    }
}

/// The 5-bit instruction field of a fetched opcode byte: its low five bits.
pub open spec fn instr_of(opcode: u8) -> u8 {
    opcode & 0x1f
}

/// The 3-bit register-select field of a fetched opcode byte: its high three
/// bits.
pub open spec fn regsel_of(opcode: u8) -> u8 {
    (opcode & 0xe0) >> 5
}

/// The memory-address register: a 16-bit address assembled fresh each step
/// from the high byte `marh` (register 7) and the low byte `marl`
/// (register 6).
pub open spec fn mar_of(regs: Seq<u8>) -> u16 {
    (reg_read(regs, 7) * 256 + reg_read(regs, 6)) as u16
}

/// A 16-bit value reduced modulo 2^16: how the program counter wraps when
/// incremented past the top of the address space.
pub open spec fn wrap16(x: int) -> u16 {
    (x % 0x10000) as u16
}

/// An 8-bit value reduced modulo 2^8: the byte the ALU keeps of an
/// arithmetic result.
pub open spec fn wrap8(x: int) -> u8 {
    (x % 0x100) as u8
}

/// The byte an ALU operation `i` (0-8) produces from accumulator `a`,
/// operand register value `b`, and the incoming carry flag. Instruction 8
/// (compare) computes the same byte as subtraction; whether it is stored is
/// decided by the step, not here. Instructions 7 and anything unrecognized
/// produce 0.
pub open spec fn alu_result(i: u8, a: u8, b: u8, carry: bool) -> u8 {
    let c: u8 = if carry {
        1
    } else {
        0
    };
    if i == 0 {
        wrap8(a + b)
    } else if i == 1 || i == 8 {
        wrap8(a - b)
    } else if i == 2 {
        wrap8(a + b + c)
    } else if i == 3 {
        wrap8(a - b - c)
    } else if i == 4 {
        (a >> 1) & (c << 7)
    } else if i == 5 {
        !(a | b)
    } else if i == 6 {
        a & b
    } else {
        0
    }
}

/// The carry flag after ALU operation `i` (0-8). Addition carries exactly
/// when the true sum exceeds 255. Every subtraction (including compare and
/// subtract-with-carry) sets the carry unconditionally. Rotate-right
/// captures the bit that fell off the low end. The bitwise operations and
/// instruction 7 leave the carry as it was.
pub open spec fn alu_carry(i: u8, a: u8, b: u8, carry: bool) -> bool {
    let c: int = if carry {
        1
    } else {
        0
    };
    if i == 0 {
        a + b > 255
    } else if i == 1 || i == 8 {
        true
    } else if i == 2 {
        a + b + c > 255
    } else if i == 3 {
        true
    } else if i == 4 {
        a & 1 != 0
    } else {
        carry
    }
}

/// Whether the conditional-jump instruction `i` (13-21) takes its jump in
/// state `s`: 13 always jumps, the others jump on one flag or its negation.
pub open spec fn jump_taken(i: u8, s: MachineState) -> bool {
    if i == 13 {
        true
    } else if i == 14 {
        s.carry
    } else if i == 15 {
        !s.carry
    } else if i == 16 {
        s.zero
    } else if i == 17 {
        !s.zero
    } else if i == 18 {
        s.sign
    } else if i == 19 {
        !s.sign
    } else if i == 20 {
        s.parity
    } else {
        !s.parity
    }
}

/// One fetch-decode-execute step over the machine model. The opcode byte at
/// the program counter splits into the instruction field (low five bits) and
/// the register-select field (high three bits); the program counter advances
/// by one immediately after the fetch, before the instruction body runs.
/// Instructions 0-8 run the ALU, recompute sign, parity and zero from the
/// result byte, and store it in the accumulator except for compare (8).
/// The remaining instructions are flag writes, register moves, jumps through
/// the memory-address register, an immediate load that consumes one more
/// program byte, a call-address save, and data-store accesses; every
/// unassigned instruction (including halt, which changes nothing further) is
/// a no-op beyond the fetch itself.
pub open spec fn step(s: MachineState) -> MachineState {
    let opcode = s.rom[s.pc as int];
    let i = instr_of(opcode);
    let r = regsel_of(opcode);
    let m = mar_of(s.regs);
    let pc1 = wrap16(s.pc + 1);
    if i < 9 {
        let b = reg_read(s.regs, r);
        let res = alu_result(i, s.acc, b, s.carry);
        MachineState {
            acc: if i == 8 {
                s.acc
            } else {
                res
            },
            pc: pc1,
            carry: alu_carry(i, s.acc, b, s.carry),
            sign: (res >> 7) != 0,
            parity: (res & 1) != 0,
            zero: res == 0,
            ..s
        }
    } else if i == 9 {
        MachineState { carry: true, pc: pc1, ..s }
    } else if i == 10 {
        MachineState { carry: false, pc: pc1, ..s }
    } else if i == 11 {
        MachineState { acc: reg_read(s.regs, r), pc: pc1, ..s }
    } else if i == 12 {
        MachineState { regs: reg_set(s.regs, r, s.acc), pc: pc1, ..s }
    } else if 13 <= i && i <= 21 {
        MachineState {
            pc: if jump_taken(i, s) {
                m
            } else {
                pc1
            },
            ..s
        }
    } else if i == 22 {
        MachineState {
            regs: reg_set(s.regs, r, s.rom[pc1 as int]),
            pc: wrap16(pc1 + 1),
            ..s
        }
    } else if i == 23 {
        MachineState {
            regs: reg_set(reg_set(s.regs, 2, wrap8(pc1 as int)), 3, (pc1 as int / 256) as u8),
            pc: pc1,
            ..s
        }
    } else if i == 24 {
        MachineState { ram: s.ram.update(m as int, reg_read(s.regs, r)), pc: pc1, ..s }
    } else if i == 25 {
        MachineState { regs: reg_set(s.regs, r, s.ram[m as int]), pc: pc1, ..s }
    } else {
        MachineState { pc: pc1, ..s }
    }
}

/// Whether execution goes on after the step taken in state `s`: it stops
/// exactly when the fetched instruction field is 29, the halt instruction.
pub open spec fn continues(s: MachineState) -> bool {
    instr_of(s.rom[s.pc as int]) != 29
}

/// The program store built from a raw binary image: the image's bytes from
/// address 0, zero-padded to 65536 bytes when the image is shorter and
/// truncated to the first 65536 bytes when it is longer.
pub open spec fn load_image(program: Seq<u8>) -> Seq<u8> {
    Seq::new(65536, |i: int| if i < program.len() { program[i] } else { 0 })
}

/// The machine as it powers up on a program image: every register, the
/// accumulator, the program counter, the whole data store and all four flags
/// are zero; the program store holds the loaded image.
pub open spec fn initial_state(program: Seq<u8>) -> MachineState {
    MachineState {
        acc: 0,
        regs: seq![0u8, 0u8, 0u8, 0u8, 0u8, 0u8, 0u8, 0u8],
        pc: 0,
        rom: load_image(program),
        ram: Seq::new(65536, |i: int| 0u8),
        carry: false,
        zero: false,
        parity: false,
        sign: false,
    }
}

/// What the single-value state query returns for index `x`: the registers
/// for 0-7, the accumulator for 8, the program counter for 9, and 0 for any
/// other index, each widened to 16 bits.
pub open spec fn state_query(s: MachineState, x: u8) -> u16 {
    if x == 9 {
        s.pc
    } else if x < 8 {
        reg_read(s.regs, x) as u16
    } else if x == 8 {
        s.acc as u16
    } else {
        0
    }
}

/// The processor core: the accumulator, the register file, the program
/// counter, the program store, the data store and the condition flags.
pub struct Computer {
    pub acc: u8,
    pub registers: Registers,
    pub pc: u16,
    pub rom: Memory,
    pub ram: Memory,
    pub flags: Flags,
}

impl View for Computer {
    type V = MachineState;

    /// The machine state this core embodies, as mathematical values.
    open spec fn view(&self) -> MachineState {
        MachineState {
            acc: self.acc,
            regs: self.registers@,
            pc: self.pc,
            rom: self.rom@,
            ram: self.ram@,
            carry: self.flags.f_carry,
            zero: self.flags.f_zero,
            parity: self.flags.f_parity,
            sign: self.flags.f_sign,
        }
    }
}

proof fn lemma_wrap16_inc(pc: u16)
    ensures
        pc < 0xffff ==> wrap16(pc + 1) == pc + 1,
        pc == 0xffff ==> wrap16(pc + 1) == 0,
{
    if pc < 0xffff {
        vstd::arithmetic::div_mod::lemma_small_mod((pc + 1) as nat, 0x10000);
    } else {
        vstd::arithmetic::div_mod::lemma_mod_self_0(0x10000);
    }
}

proof fn lemma_mar_concat(h: u8, l: u8)
    by (bit_vector)
    ensures
        (((h as u16) << 8) | (l as u16)) == h as u16 * 256 + l as u16,
{
}

impl Computer {
    /// A core is well formed when both of its stores are.
    pub open spec fn wf(&self) -> bool {
        &&& self.rom.wf()
        &&& self.ram.wf()
    }

    /// A fresh machine loaded with the raw binary image `program`: the image
    /// fills the program store from address 0, zero-padded or truncated to
    /// 65536 bytes, and everything else starts at zero.
    pub fn new(program: &[u8]) -> (c: Computer)
        ensures
            c.wf(),
            c@ == initial_state(program@),
    {
        let mut ready_rom: [u8; 65536] = [0; 65536];
        let mut i: usize = 0;
        while i < program.len() && i < 65536
            invariant
                i <= program.len(),
                i <= 65536,
                forall|j: int| 0 <= j < i ==> ready_rom@[j] == program@[j],
                forall|j: int| i <= j < 65536 ==> ready_rom@[j] == 0,
            decreases program.len() - i,
        {
            ready_rom[i] = program[i];
            i = i + 1;
        }
        let c = Computer {
            acc: 0,
            registers: Registers {
                r0: 0,
                r1: 0,
                r2: 0,
                r3: 0,
                sf: 0,
                sp: 0,
                marl: 0,
                marh: 0,
            },
            pc: 0,
            rom: Memory::new(&ready_rom),
            ram: Memory::new(&[0; 65536]),
            flags: Flags { f_carry: false, f_zero: false, f_parity: false, f_sign: false },
        };
        proof {
            assert(c@.rom =~= load_image(program@));
            assert(c@.ram =~= initial_state(program@).ram);
            assert(c@.regs =~= initial_state(program@).regs);
        }
        c
    }

    /// One fetch-decode-execute step. The machine moves to exactly the state
    /// the model's `step` function gives, and the call reports whether
    /// execution goes on — false exactly when the fetched instruction is the
    /// halt instruction.
    pub fn execute_instruction(&mut self) -> (keep_going: bool)
        requires
            old(self).wf(),
        ensures
            final(self).wf(),
            final(self)@ == step(old(self)@),
            keep_going == continues(old(self)@),
    {
        let opcode: u8 = self.rom.read(self.pc);
        let instruction: u8 = opcode & 0x1f;
        let register: u8 = (opcode & 0xe0) >> 5;
        let mar: u16 = ((self.registers.marh as u16) << 8) | (self.registers.marl as u16);
        proof {
            lemma_mar_concat(self.registers.marh, self.registers.marl);
            lemma_wrap16_inc(self.pc);
        }
        self.pc = if self.pc == 0xffff {
            0
        } else {
            self.pc + 1
        };

        if instruction < 9 {
            let result = self.alu(instruction, register);
            self.flags.f_sign = (result >> 7) != 0;
            self.flags.f_parity = (result & 1) != 0;
            self.flags.f_zero = result == 0;
            if instruction != 8 {
                self.acc = result;
            }
            return true;
        }

        match instruction {
            9 => {
                self.flags.f_carry = true;
            },
            10 => {
                self.flags.f_carry = false;
            },
            11 => {
                self.acc = self.registers.read(register);
            },
            12 => {
                self.registers.set(register, self.acc);
            },
            13 => {
                self.pc = mar;
            },
            14 => {
                if self.flags.f_carry {
                    self.pc = mar;
                }
            },
            15 => {
                if !self.flags.f_carry {
                    self.pc = mar;
                }
            },
            16 => {
                if self.flags.f_zero {
                    self.pc = mar;
                }
            },
            17 => {
                if !self.flags.f_zero {
                    self.pc = mar;
                }
            },
            18 => {
                if self.flags.f_sign {
                    self.pc = mar;
                }
            },
            19 => {
                if !self.flags.f_sign {
                    self.pc = mar;
                }
            },
            20 => {
                if self.flags.f_parity {
                    self.pc = mar;
                }
            },
            21 => {
                if !self.flags.f_parity {
                    self.pc = mar;
                }
            },
            22 => {
                let operand = self.rom.read(self.pc);
                self.registers.set(register, operand);
                proof {
                    lemma_wrap16_inc(self.pc);
                }
                self.pc = if self.pc == 0xffff {
                    0
                } else {
                    self.pc + 1
                };
            },
            23 => {
                let low: u8 = (self.pc % 256) as u8;
                let high: u8 = (self.pc / 256) as u8;
                self.registers.set(2, low);
                self.registers.set(3, high);
            },
            24 => {
                let value = self.registers.read(register);
                self.ram.write(mar, value);
            },
            25 => {
                let value = self.ram.read(mar);
                self.registers.set(register, value);
            },
            29 => {
                return false;
            },
            _ => {},
        }

        true
    }

    /// The single-value state query: registers for indices 0-7, the
    /// accumulator for 8, the program counter for 9, and 0 for any other
    /// index, each widened to 16 bits.
    pub fn get_state(&self, x: u8) -> (value: u16)
        ensures
            value == state_query(self@, x),
    {
        if x == 9 {
            return self.pc;
        }
        let byte: u8 = match x {
            0 => self.registers.r0,
            1 => self.registers.r1,
            2 => self.registers.r2,
            3 => self.registers.r3,
            4 => self.registers.sf,
            5 => self.registers.sp,
            6 => self.registers.marl,
            7 => self.registers.marh,
            8 => self.acc,
            _ => 0,
        };
        byte as u16
    }

    /// The arithmetic/logic unit: computes the result byte of instruction
    /// `i` (0-8) on the accumulator and the register selected by `r`, and
    /// updates the carry flag; nothing else of the machine changes. Storing
    /// the result is the caller's decision.
    fn alu(&mut self, i: u8, r: u8) -> (result: u8)
        ensures
            result == alu_result(
                i,
                old(self).acc,
                reg_read(old(self).registers@, r),
                old(self).flags.f_carry,
            ),
            final(self)@ == (MachineState {
                carry: alu_carry(
                    i,
                    old(self).acc,
                    reg_read(old(self).registers@, r),
                    old(self).flags.f_carry,
                ),
                ..old(self)@
            }),
    {
        let a: u8 = self.acc;
        let b: u8 = self.registers.read(r);
        let carry_in: u8 = if self.flags.f_carry {
            1
        } else {
            0
        };

        let result: u8 = match i {
            0 => {
                let sum: u16 = a as u16 + b as u16;
                self.flags.f_carry = sum > 255;
                (sum % 256) as u8
            },
            1 | 8 => {
                let diff: u16 = a as u16 + 256 - b as u16;
                self.flags.f_carry = true;
                proof {
                    vstd::arithmetic::div_mod::lemma_mod_add_multiples_vanish(
                        a as int - b as int,
                        256,
                    );
                }
                (diff % 256) as u8
            },
            2 => {
                let sum: u16 = a as u16 + b as u16 + carry_in as u16;
                self.flags.f_carry = sum > 255;
                (sum % 256) as u8
            },
            3 => {
                let diff: u16 = a as u16 + 256 - b as u16 - carry_in as u16;
                self.flags.f_carry = true;
                proof {
                    vstd::arithmetic::div_mod::lemma_mod_add_multiples_vanish(
                        a as int - b as int - carry_in as int,
                        256,
                    );
                }
                (diff % 256) as u8
            },
            4 => {
                let fell: u8 = a & 1;
                self.flags.f_carry = fell != 0;
                (a >> 1) & (carry_in << 7)
            },
            5 => !(a | b),
            6 => a & b,
            _ => 0,
        };
        result
    }
}

/// Law: a program image shorter than the store leaves the remainder zero,
/// and one longer than the store contributes only its first 65536 bytes.
pub proof fn lemma_load_image(program: Seq<u8>)
    ensures
        load_image(program).len() == 65536,
        forall|i: int| 0 <= i < 65536 && i < program.len() ==> load_image(program)[i] == program[i],
        forall|i: int| program.len() <= i < 65536 ==> load_image(program)[i] == 0,
{
}

/// Law: stepping a well-formed machine state yields a well-formed machine
/// state: the register file keeps its eight slots and both stores their
/// 65536 bytes, whatever instruction runs.
pub proof fn lemma_step_preserves_wf(s: MachineState)
    requires
        s.wf(),
    ensures
        step(s).wf(),
{
}

/// Law: no instruction writes the program store; every step leaves it
/// unchanged. Only the data store is ever written.
pub proof fn lemma_step_preserves_rom(s: MachineState)
    ensures
        step(s).rom == s.rom,
{
}

/// Law: fetching a halt instruction ends execution and changes nothing but
/// the program counter, which moves past the fetched byte.
pub proof fn lemma_halt_changes_nothing(s: MachineState)
    requires
        instr_of(s.rom[s.pc as int]) == 29,
    ensures
        !continues(s),
        step(s) == (MachineState { pc: wrap16(s.pc + 1), ..s }),
{
}

/// The byte a compare instruction fetched in state `s` would subtract down
/// to: what the flags are recomputed from, though it is never stored.
pub open spec fn cmp_result(s: MachineState) -> u8 {
    alu_result(8, s.acc, reg_read(s.regs, regsel_of(s.rom[s.pc as int])), s.carry)
}

/// Law: a compare (instruction 8) sets the flags exactly as the subtraction
/// it performs would, yet leaves the accumulator — and everything else but
/// the program counter — unchanged.
pub proof fn lemma_cmp_preserves_acc(s: MachineState)
    requires
        instr_of(s.rom[s.pc as int]) == 8,
    ensures
        step(s).acc == s.acc,
        step(s).regs == s.regs,
        step(s).ram == s.ram,
        step(s).carry,
        step(s).zero == (cmp_result(s) == 0),
        step(s).sign == ((cmp_result(s) >> 7) != 0),
        step(s).parity == ((cmp_result(s) & 1) != 0),
{
}

} // verus!
