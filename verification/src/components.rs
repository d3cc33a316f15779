//! The leaf components of the machine: the register file, one 64KB byte
//! store (used twice, as program store and as data store), and the four
//! condition flags.

use vstd::prelude::*;

verus! {

/// What reading register index `r` yields from a register file holding the
/// bytes `regs`: the selected register for an index below 8, and 0 for any
/// higher index (out-of-range reads are defined, not faults).
pub open spec fn reg_read(regs: Seq<u8>, r: u8) -> u8 {
    if r < 8 {
        regs[r as int]
    } else {
        0
    }
}

/// What the register file holds after writing `value` at index `r`: the
/// selected register is replaced for an index below 8, and nothing changes
/// for any higher index (out-of-range writes are silently dropped).
pub open spec fn reg_set(regs: Seq<u8>, r: u8, value: u8) -> Seq<u8> {
    if r < 8 {
        regs.update(r as int, value)
    } else {
        regs
    }
}

/// The register file: four general registers, the status-flag mirror, the
/// stack pointer, and the low and high bytes of the memory-address register.
/// Every field is a plain byte; any combination of values is valid.
pub struct Registers {
    pub r0: u8,
    pub r1: u8,
    pub r2: u8,
    pub r3: u8,
    pub sf: u8,
    pub sp: u8,
    pub marl: u8,
    pub marh: u8,
}

impl View for Registers {
    type V = Seq<u8>;

    /// The file as a sequence of eight bytes, in index order
    /// r0, r1, r2, r3, sf, sp, marl, marh.
    open spec fn view(&self) -> Seq<u8> {
        seq![self.r0, self.r1, self.r2, self.r3, self.sf, self.sp, self.marl, self.marh]
    }
}

impl Registers {
    /// Read the register selected by `r`; any index of 8 or more reads as 0.
    pub fn read(&self, r: u8) -> (value: u8)
        ensures
            value == reg_read(self@, r),
    {
        match r {
            0 => self.r0,
            1 => self.r1,
            2 => self.r2,
            3 => self.r3,
            4 => self.sf,
            5 => self.sp,
            6 => self.marl,
            7 => self.marh,
            _ => 0,
        }
    }

    /// Write `value` into the register selected by `r`; any index of 8 or
    /// more is a no-op.
    pub fn set(&mut self, r: u8, value: u8)
        ensures
            final(self)@ == reg_set(old(self)@, r, value),
    {
        match r {
            0 => self.r0 = value,
            1 => self.r1 = value,
            2 => self.r2 = value,
            3 => self.r3 = value,
            4 => self.sf = value,
            5 => self.sp = value,
            6 => self.marl = value,
            7 => self.marh = value,
            _ => (),
        }
        proof {
            assert(self@ =~= reg_set(old(self)@, r, value));
        }
    }
}

/// One 64KB byte store, addressable by any 16-bit address. The machine owns
/// two of these: the program store and the data store. Reads and writes are
/// total over the whole address range; no access can fail.
pub struct Memory {
    pub data: Vec<u8>,
}

impl View for Memory {
    type V = Seq<u8>;

    /// The store as the sequence of its 65536 bytes.
    open spec fn view(&self) -> Seq<u8> {
        self.data@
    }
}

impl Memory {
    /// A store is well formed when it holds exactly one byte per 16-bit
    /// address. Constructors establish this and writes preserve it.
    pub open spec fn wf(&self) -> bool {
        self.data@.len() == 65536
    }

    /// A fresh store holding exactly the 65536 bytes of `data`.
    pub fn new(data: &[u8; 65536]) -> (m: Memory)
        ensures
            m.wf(),
            m@ == data@,
    {
        let mut v: Vec<u8> = Vec::new();
        let mut i: usize = 0;
        while i < 65536
            invariant
                i <= 65536,
                v@.len() == i,
                forall|j: int| 0 <= j < i ==> v@[j] == data@[j],
            decreases 65536 - i,
        {
            v.push(data[i]);
            i = i + 1;
        }
        proof {
            assert(v@ =~= data@);
        }
        Memory { data: v }
    }

    /// Read the byte at address `ptr`.
    pub fn read(&self, ptr: u16) -> (value: u8)
        requires
            self.wf(),
        ensures
            value == self@[ptr as int],
    {
        self.data[ptr as usize]
    }

    /// Write `value` at address `ptr`, leaving every other address unchanged.
    pub fn write(&mut self, ptr: u16, value: u8)
        requires
            old(self).wf(),
        ensures
            final(self).wf(),
            final(self)@ == old(self)@.update(ptr as int, value),
    {
        self.data[ptr as usize] = value;
    }
}

/// Law: on any well-formed store, writing a byte and then reading the same
/// address yields it back, and every other address still reads what it held
/// before the write. Since a write relates only the store it was applied to,
/// writing one store of a pair never changes the other.
pub proof fn lemma_memory_write_read(mem: Seq<u8>, a: u16, b: u16, v: u8)
    requires
        mem.len() == 65536,
    ensures
        mem.update(a as int, v)[a as int] == v,
        a != b ==> mem.update(a as int, v)[b as int] == mem[b as int],
{
}

/// The four condition flags. Each is an independent boolean: carry, zero,
/// parity (the low bit of the last ALU result) and sign (its high bit).
pub struct Flags {
    pub f_carry: bool,
    pub f_zero: bool,
    pub f_parity: bool,
    pub f_sign: bool,
}

/// Law: writing register index `i` and then reading the same index yields the
/// written value for every index 0-7; for every index 8 and above the write
/// leaves the file unchanged and the read returns 0.
pub proof fn lemma_register_write_read(regs: Seq<u8>, i: u8, v: u8)
    requires
        regs.len() == 8,
    ensures
        i < 8 ==> reg_read(reg_set(regs, i, v), i) == v,
        i >= 8 ==> reg_set(regs, i, v) == regs,
        i >= 8 ==> reg_read(reg_set(regs, i, v), i) == 0,
{
}

} // verus!
