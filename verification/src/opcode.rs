//! The instruction set: mnemonics, addressing modes, timing classes, and the
//! table that maps an opcode byte to all three.

use vstd::prelude::*;

verus! {

/// The 56 instructions of the processor.
#[derive(Clone, Copy, Debug, PartialEq, Eq, Structural)]
pub enum Instruction {
    Adc,
    And,
    Asl,
    Bcc,
    Bcs,
    Beq,
    Bit,
    Bmi,
    Bne,
    Bpl,
    Brk,
    Bvc,
    Bvs,
    Clc,
    Cld,
    Cli,
    Clv,
    Cmp,
    Cpx,
    Cpy,
    Dec,
    Dex,
    Dey,
    Eor,
    Inc,
    Inx,
    Iny,
    Jmp,
    Jsr,
    Lda,
    Ldx,
    Ldy,
    Lsr,
    Nop,
    Ora,
    Pha,
    Php,
    Pla,
    Plp,
    Rol,
    Ror,
    Rti,
    Rts,
    Sbc,
    Sec,
    Sed,
    Sei,
    Sta,
    Stx,
    Sty,
    Tax,
    Tay,
    Tsx,
    Txa,
    Txs,
    Tya,
}

/// How an instruction finds its operand.
#[derive(Clone, Copy, Debug, PartialEq, Eq, Structural)]
pub enum AddrMode {
    Implicit,
    Accumulator,
    Immediate,
    ZeroPage,
    ZeroPageX,
    ZeroPageY,
    Relative,
    Absolute,
    AbsoluteX,
    AbsoluteY,
    Indirect,
    IndirectX,
    IndirectY,
}

/// How many cycles an instruction takes.
#[derive(Clone, Copy, Debug, PartialEq, Eq, Structural)]
pub enum CycleLen {
    /// Always the given number of cycles.
    Constant(usize),
    /// The given number of cycles, and one more when the effective address
    /// lies in another page than the base address it was indexed from.
    PageCrossed(usize),
    /// Two cycles, one more when the branch is taken, and one more again
    /// when the taken branch leaves the page of the next instruction.
    Branch,
}

/// A decoded opcode byte: what to do, where the operand is, how long it takes.
#[derive(Clone, Copy, Debug, PartialEq, Eq, Structural)]
pub struct Opcode(pub Instruction, pub AddrMode, pub CycleLen);

impl AddrMode {
    /// The number of operand bytes that follow the opcode byte.
    pub open spec fn operand_len(self) -> nat {
        match self {
            AddrMode::Implicit => 0,
            AddrMode::Accumulator => 0,
            AddrMode::Immediate => 1,
            AddrMode::ZeroPage => 1,
            AddrMode::ZeroPageX => 1,
            AddrMode::ZeroPageY => 1,
            AddrMode::Relative => 1,
            AddrMode::Absolute => 2,
            AddrMode::AbsoluteX => 2,
            AddrMode::AbsoluteY => 2,
            AddrMode::Indirect => 2,
            AddrMode::IndirectX => 1,
            AddrMode::IndirectY => 1,
        }
    }

    /// Whether the mode names a place in memory, so that an instruction can
    /// read from it or write to it.
    pub open spec fn is_memory(self) -> bool {
        match self {
            AddrMode::ZeroPage
            | AddrMode::ZeroPageX
            | AddrMode::ZeroPageY
            | AddrMode::Absolute
            | AddrMode::AbsoluteX
            | AddrMode::AbsoluteY
            | AddrMode::IndirectX
            | AddrMode::IndirectY => true,
            _ => false,
        }
    }

    /// Whether the mode yields an operand byte: a place in memory, or the
    /// byte that follows the opcode.
    pub open spec fn is_value(self) -> bool {
        self.is_memory() || self == AddrMode::Immediate || self == AddrMode::Relative
    }

    /// The number of operand bytes that follow the opcode byte.
    pub fn n_param_bytes(&self) -> (n: usize)
        ensures
            n == self.operand_len(),
    {
        match self {
            AddrMode::Implicit => 0,
            AddrMode::Accumulator => 0,
            AddrMode::Immediate => 1,
            AddrMode::ZeroPage => 1,
            AddrMode::ZeroPageX => 1,
            AddrMode::ZeroPageY => 1,
            AddrMode::Relative => 1,
            AddrMode::Absolute => 2,
            AddrMode::AbsoluteX => 2,
            AddrMode::AbsoluteY => 2,
            AddrMode::Indirect => 2,
            AddrMode::IndirectX => 1,
            AddrMode::IndirectY => 1,
        }
    }
}

impl Instruction {
    /// Instructions that take an operand byte and compute with it.
    pub open spec fn reads_operand(self) -> bool {
        match self {
            Instruction::Adc
            | Instruction::And
            | Instruction::Bit
            | Instruction::Cmp
            | Instruction::Cpx
            | Instruction::Cpy
            | Instruction::Eor
            | Instruction::Lda
            | Instruction::Ldx
            | Instruction::Ldy
            | Instruction::Ora
            | Instruction::Sbc => true,
            _ => false,
        }
    }

    /// The shifts and rotations, which work on the accumulator or on a
    /// place in memory.
    pub open spec fn is_shift(self) -> bool {
        match self {
            Instruction::Asl | Instruction::Lsr | Instruction::Rol | Instruction::Ror => true,
            _ => false,
        }
    }

    /// Instructions that change or fill a place in memory.
    pub open spec fn acts_on_memory(self) -> bool {
        match self {
            Instruction::Dec
            | Instruction::Inc
            | Instruction::Sta
            | Instruction::Stx
            | Instruction::Sty => true,
            _ => self.is_shift(),
        }
    }

    /// The eight conditional branches.
    pub open spec fn is_branch(self) -> bool {
        match self {
            Instruction::Bcc
            | Instruction::Bcs
            | Instruction::Beq
            | Instruction::Bmi
            | Instruction::Bne
            | Instruction::Bpl
            | Instruction::Bvc
            | Instruction::Bvs => true,
            _ => false,
        }
    }

    /// The three instructions that write a register to memory.
    pub open spec fn is_store(self) -> bool {
        self == Instruction::Sta || self == Instruction::Stx || self == Instruction::Sty
    }

    /// Whether the instruction can be carried out with the given mode.
    /// Instructions without an operand, branches and `JSR` do not look at
    /// the mode at all.
    pub open spec fn accepts(self, mode: AddrMode) -> bool {
        if self.reads_operand() {
            mode.is_value()
        } else if self.is_shift() {
            mode == AddrMode::Accumulator || mode.is_memory()
        } else if self.acts_on_memory() {
            mode.is_memory()
        } else if self == Instruction::Jmp {
            mode == AddrMode::Absolute || mode == AddrMode::Indirect
        } else {
            true
        }
    }

    /// How long the instruction takes with the given mode. Instructions
    /// that read an operand pay for each byte of address they fetch and
    /// once more when indexing crosses a page; instructions that write
    /// always pay for the crossing; instructions that read, change and
    /// write back pay two cycles more than a write.
    pub open spec fn timing(self, mode: AddrMode) -> CycleLen {
        if self.reads_operand() {
            match mode {
                AddrMode::Immediate => CycleLen::Constant(2),
                AddrMode::ZeroPage => CycleLen::Constant(3),
                AddrMode::ZeroPageX | AddrMode::ZeroPageY | AddrMode::Absolute => {
                    CycleLen::Constant(4)
                },
                AddrMode::AbsoluteX | AddrMode::AbsoluteY => CycleLen::PageCrossed(4),
                AddrMode::IndirectX => CycleLen::Constant(6),
                _ => CycleLen::PageCrossed(5),
            }
        } else if self.is_store() {
            match mode {
                AddrMode::ZeroPage => CycleLen::Constant(3),
                AddrMode::ZeroPageX | AddrMode::ZeroPageY | AddrMode::Absolute => {
                    CycleLen::Constant(4)
                },
                AddrMode::AbsoluteX | AddrMode::AbsoluteY => CycleLen::Constant(5),
                _ => CycleLen::Constant(6),
            }
        } else if self.acts_on_memory() {
            match mode {
                AddrMode::Accumulator => CycleLen::Constant(2),
                AddrMode::ZeroPage => CycleLen::Constant(5),
                AddrMode::ZeroPageX | AddrMode::Absolute => CycleLen::Constant(6),
                _ => CycleLen::Constant(7),
            }
        } else if self.is_branch() {
            CycleLen::Branch
        } else {
            match self {
                Instruction::Jmp => if mode == AddrMode::Indirect {
                    CycleLen::Constant(5)
                } else {
                    CycleLen::Constant(3)
                },
                Instruction::Pha | Instruction::Php => CycleLen::Constant(3),
                Instruction::Pla | Instruction::Plp => CycleLen::Constant(4),
                Instruction::Jsr | Instruction::Rts | Instruction::Rti => CycleLen::Constant(6),
                Instruction::Brk => CycleLen::Constant(7),
                _ => CycleLen::Constant(2),
            }
        }
    }
}

impl Opcode {
    /// Whether the instruction can be carried out with the mode it is
    /// paired with.
    pub open spec fn is_executable(self) -> bool {
        self.0.accepts(self.1)
    }

    /// Whether the timing class is the one that the instruction has with
    /// the mode it is paired with.
    pub open spec fn is_timed(self) -> bool {
        self.2 == self.0.timing(self.1)
    }

    /// The opcode table: the 151 documented opcode bytes and what each one
    /// stands for. Every other byte decodes to nothing.
    #[verifier::opaque]
    pub open spec fn table(code: u8) -> Option<Opcode> {
        match code {
            0x69 => Some(Opcode(Instruction::Adc, AddrMode::Immediate, CycleLen::Constant(2))),
            0x65 => Some(Opcode(Instruction::Adc, AddrMode::ZeroPage, CycleLen::Constant(3))),
            0x75 => Some(Opcode(Instruction::Adc, AddrMode::ZeroPageX, CycleLen::Constant(4))),
            0x6D => Some(Opcode(Instruction::Adc, AddrMode::Absolute, CycleLen::Constant(4))),
            0x7D => Some(Opcode(Instruction::Adc, AddrMode::AbsoluteX, CycleLen::PageCrossed(4))),
            0x79 => Some(Opcode(Instruction::Adc, AddrMode::AbsoluteY, CycleLen::PageCrossed(4))),
            0x61 => Some(Opcode(Instruction::Adc, AddrMode::IndirectX, CycleLen::Constant(6))),
            0x71 => Some(Opcode(Instruction::Adc, AddrMode::IndirectY, CycleLen::PageCrossed(5))),
            0x29 => Some(Opcode(Instruction::And, AddrMode::Immediate, CycleLen::Constant(2))),
            0x25 => Some(Opcode(Instruction::And, AddrMode::ZeroPage, CycleLen::Constant(3))),
            0x35 => Some(Opcode(Instruction::And, AddrMode::ZeroPageX, CycleLen::Constant(4))),
            0x2D => Some(Opcode(Instruction::And, AddrMode::Absolute, CycleLen::Constant(4))),
            0x3D => Some(Opcode(Instruction::And, AddrMode::AbsoluteX, CycleLen::PageCrossed(4))),
            0x39 => Some(Opcode(Instruction::And, AddrMode::AbsoluteY, CycleLen::PageCrossed(4))),
            0x21 => Some(Opcode(Instruction::And, AddrMode::IndirectX, CycleLen::Constant(6))),
            0x31 => Some(Opcode(Instruction::And, AddrMode::IndirectY, CycleLen::PageCrossed(5))),
            0x0A => Some(Opcode(Instruction::Asl, AddrMode::Accumulator, CycleLen::Constant(2))),
            0x06 => Some(Opcode(Instruction::Asl, AddrMode::ZeroPage, CycleLen::Constant(5))),
            0x16 => Some(Opcode(Instruction::Asl, AddrMode::ZeroPageX, CycleLen::Constant(6))),
            0x0E => Some(Opcode(Instruction::Asl, AddrMode::Absolute, CycleLen::Constant(6))),
            0x1E => Some(Opcode(Instruction::Asl, AddrMode::AbsoluteX, CycleLen::Constant(7))),
            0x90 => Some(Opcode(Instruction::Bcc, AddrMode::Relative, CycleLen::Branch)),
            0xB0 => Some(Opcode(Instruction::Bcs, AddrMode::Relative, CycleLen::Branch)),
            0xF0 => Some(Opcode(Instruction::Beq, AddrMode::Relative, CycleLen::Branch)),
            0x24 => Some(Opcode(Instruction::Bit, AddrMode::ZeroPage, CycleLen::Constant(3))),
            0x2C => Some(Opcode(Instruction::Bit, AddrMode::Absolute, CycleLen::Constant(4))),
            0x30 => Some(Opcode(Instruction::Bmi, AddrMode::Relative, CycleLen::Branch)),
            0xD0 => Some(Opcode(Instruction::Bne, AddrMode::Relative, CycleLen::Branch)),
            0x10 => Some(Opcode(Instruction::Bpl, AddrMode::Relative, CycleLen::Branch)),
            0x00 => Some(Opcode(Instruction::Brk, AddrMode::Implicit, CycleLen::Constant(7))),
            0x50 => Some(Opcode(Instruction::Bvc, AddrMode::Relative, CycleLen::Branch)),
            0x70 => Some(Opcode(Instruction::Bvs, AddrMode::Relative, CycleLen::Branch)),
            0x18 => Some(Opcode(Instruction::Clc, AddrMode::Implicit, CycleLen::Constant(2))),
            0xD8 => Some(Opcode(Instruction::Cld, AddrMode::Implicit, CycleLen::Constant(2))),
            0x58 => Some(Opcode(Instruction::Cli, AddrMode::Implicit, CycleLen::Constant(2))),
            0xB8 => Some(Opcode(Instruction::Clv, AddrMode::Implicit, CycleLen::Constant(2))),
            0xC9 => Some(Opcode(Instruction::Cmp, AddrMode::Immediate, CycleLen::Constant(2))),
            0xC5 => Some(Opcode(Instruction::Cmp, AddrMode::ZeroPage, CycleLen::Constant(3))),
            0xD5 => Some(Opcode(Instruction::Cmp, AddrMode::ZeroPageX, CycleLen::Constant(4))),
            0xCD => Some(Opcode(Instruction::Cmp, AddrMode::Absolute, CycleLen::Constant(4))),
            0xDD => Some(Opcode(Instruction::Cmp, AddrMode::AbsoluteX, CycleLen::PageCrossed(4))),
            0xD9 => Some(Opcode(Instruction::Cmp, AddrMode::AbsoluteY, CycleLen::PageCrossed(4))),
            0xC1 => Some(Opcode(Instruction::Cmp, AddrMode::IndirectX, CycleLen::Constant(6))),
            0xD1 => Some(Opcode(Instruction::Cmp, AddrMode::IndirectY, CycleLen::PageCrossed(5))),
            0xE0 => Some(Opcode(Instruction::Cpx, AddrMode::Immediate, CycleLen::Constant(2))),
            0xE4 => Some(Opcode(Instruction::Cpx, AddrMode::ZeroPage, CycleLen::Constant(3))),
            0xEC => Some(Opcode(Instruction::Cpx, AddrMode::Absolute, CycleLen::Constant(4))),
            0xC0 => Some(Opcode(Instruction::Cpy, AddrMode::Immediate, CycleLen::Constant(2))),
            0xC4 => Some(Opcode(Instruction::Cpy, AddrMode::ZeroPage, CycleLen::Constant(3))),
            0xCC => Some(Opcode(Instruction::Cpy, AddrMode::Absolute, CycleLen::Constant(4))),
            0xC6 => Some(Opcode(Instruction::Dec, AddrMode::ZeroPage, CycleLen::Constant(5))),
            0xD6 => Some(Opcode(Instruction::Dec, AddrMode::ZeroPageX, CycleLen::Constant(6))),
            0xCE => Some(Opcode(Instruction::Dec, AddrMode::Absolute, CycleLen::Constant(6))),
            0xDE => Some(Opcode(Instruction::Dec, AddrMode::AbsoluteX, CycleLen::Constant(7))),
            0xCA => Some(Opcode(Instruction::Dex, AddrMode::Implicit, CycleLen::Constant(2))),
            0x88 => Some(Opcode(Instruction::Dey, AddrMode::Implicit, CycleLen::Constant(2))),
            0x49 => Some(Opcode(Instruction::Eor, AddrMode::Immediate, CycleLen::Constant(2))),
            0x45 => Some(Opcode(Instruction::Eor, AddrMode::ZeroPage, CycleLen::Constant(3))),
            0x55 => Some(Opcode(Instruction::Eor, AddrMode::ZeroPageX, CycleLen::Constant(4))),
            0x4D => Some(Opcode(Instruction::Eor, AddrMode::Absolute, CycleLen::Constant(4))),
            0x5D => Some(Opcode(Instruction::Eor, AddrMode::AbsoluteX, CycleLen::PageCrossed(4))),
            0x59 => Some(Opcode(Instruction::Eor, AddrMode::AbsoluteY, CycleLen::PageCrossed(4))),
            0x41 => Some(Opcode(Instruction::Eor, AddrMode::IndirectX, CycleLen::Constant(6))),
            0x51 => Some(Opcode(Instruction::Eor, AddrMode::IndirectY, CycleLen::PageCrossed(5))),
            0xE6 => Some(Opcode(Instruction::Inc, AddrMode::ZeroPage, CycleLen::Constant(5))),
            0xF6 => Some(Opcode(Instruction::Inc, AddrMode::ZeroPageX, CycleLen::Constant(6))),
            0xEE => Some(Opcode(Instruction::Inc, AddrMode::Absolute, CycleLen::Constant(6))),
            0xFE => Some(Opcode(Instruction::Inc, AddrMode::AbsoluteX, CycleLen::Constant(7))),
            0xE8 => Some(Opcode(Instruction::Inx, AddrMode::Implicit, CycleLen::Constant(2))),
            0xC8 => Some(Opcode(Instruction::Iny, AddrMode::Implicit, CycleLen::Constant(2))),
            0x4C => Some(Opcode(Instruction::Jmp, AddrMode::Absolute, CycleLen::Constant(3))),
            0x6C => Some(Opcode(Instruction::Jmp, AddrMode::Indirect, CycleLen::Constant(5))),
            0x20 => Some(Opcode(Instruction::Jsr, AddrMode::Absolute, CycleLen::Constant(6))),
            0xA9 => Some(Opcode(Instruction::Lda, AddrMode::Immediate, CycleLen::Constant(2))),
            0xA5 => Some(Opcode(Instruction::Lda, AddrMode::ZeroPage, CycleLen::Constant(3))),
            0xB5 => Some(Opcode(Instruction::Lda, AddrMode::ZeroPageX, CycleLen::Constant(4))),
            0xAD => Some(Opcode(Instruction::Lda, AddrMode::Absolute, CycleLen::Constant(4))),
            0xBD => Some(Opcode(Instruction::Lda, AddrMode::AbsoluteX, CycleLen::PageCrossed(4))),
            0xB9 => Some(Opcode(Instruction::Lda, AddrMode::AbsoluteY, CycleLen::PageCrossed(4))),
            0xA1 => Some(Opcode(Instruction::Lda, AddrMode::IndirectX, CycleLen::Constant(6))),
            0xB1 => Some(Opcode(Instruction::Lda, AddrMode::IndirectY, CycleLen::PageCrossed(5))),
            0xA2 => Some(Opcode(Instruction::Ldx, AddrMode::Immediate, CycleLen::Constant(2))),
            0xA6 => Some(Opcode(Instruction::Ldx, AddrMode::ZeroPage, CycleLen::Constant(3))),
            0xB6 => Some(Opcode(Instruction::Ldx, AddrMode::ZeroPageY, CycleLen::Constant(4))),
            0xAE => Some(Opcode(Instruction::Ldx, AddrMode::Absolute, CycleLen::Constant(4))),
            0xBE => Some(Opcode(Instruction::Ldx, AddrMode::AbsoluteY, CycleLen::PageCrossed(4))),
            0xA0 => Some(Opcode(Instruction::Ldy, AddrMode::Immediate, CycleLen::Constant(2))),
            0xA4 => Some(Opcode(Instruction::Ldy, AddrMode::ZeroPage, CycleLen::Constant(3))),
            0xB4 => Some(Opcode(Instruction::Ldy, AddrMode::ZeroPageX, CycleLen::Constant(4))),
            0xAC => Some(Opcode(Instruction::Ldy, AddrMode::Absolute, CycleLen::Constant(4))),
            0xBC => Some(Opcode(Instruction::Ldy, AddrMode::AbsoluteX, CycleLen::PageCrossed(4))),
            0x4A => Some(Opcode(Instruction::Lsr, AddrMode::Accumulator, CycleLen::Constant(2))),
            0x46 => Some(Opcode(Instruction::Lsr, AddrMode::ZeroPage, CycleLen::Constant(5))),
            0x56 => Some(Opcode(Instruction::Lsr, AddrMode::ZeroPageX, CycleLen::Constant(6))),
            0x4E => Some(Opcode(Instruction::Lsr, AddrMode::Absolute, CycleLen::Constant(6))),
            0x5E => Some(Opcode(Instruction::Lsr, AddrMode::AbsoluteX, CycleLen::Constant(7))),
            0xEA => Some(Opcode(Instruction::Nop, AddrMode::Implicit, CycleLen::Constant(2))),
            0x09 => Some(Opcode(Instruction::Ora, AddrMode::Immediate, CycleLen::Constant(2))),
            0x05 => Some(Opcode(Instruction::Ora, AddrMode::ZeroPage, CycleLen::Constant(3))),
            0x15 => Some(Opcode(Instruction::Ora, AddrMode::ZeroPageX, CycleLen::Constant(4))),
            0x0D => Some(Opcode(Instruction::Ora, AddrMode::Absolute, CycleLen::Constant(4))),
            0x1D => Some(Opcode(Instruction::Ora, AddrMode::AbsoluteX, CycleLen::PageCrossed(4))),
            0x19 => Some(Opcode(Instruction::Ora, AddrMode::AbsoluteY, CycleLen::PageCrossed(4))),
            0x01 => Some(Opcode(Instruction::Ora, AddrMode::IndirectX, CycleLen::Constant(6))),
            0x11 => Some(Opcode(Instruction::Ora, AddrMode::IndirectY, CycleLen::PageCrossed(5))),
            0x48 => Some(Opcode(Instruction::Pha, AddrMode::Implicit, CycleLen::Constant(3))),
            0x08 => Some(Opcode(Instruction::Php, AddrMode::Implicit, CycleLen::Constant(3))),
            0x68 => Some(Opcode(Instruction::Pla, AddrMode::Implicit, CycleLen::Constant(4))),
            0x28 => Some(Opcode(Instruction::Plp, AddrMode::Implicit, CycleLen::Constant(4))),
            0x2A => Some(Opcode(Instruction::Rol, AddrMode::Accumulator, CycleLen::Constant(2))),
            0x26 => Some(Opcode(Instruction::Rol, AddrMode::ZeroPage, CycleLen::Constant(5))),
            0x36 => Some(Opcode(Instruction::Rol, AddrMode::ZeroPageX, CycleLen::Constant(6))),
            0x2E => Some(Opcode(Instruction::Rol, AddrMode::Absolute, CycleLen::Constant(6))),
            0x3E => Some(Opcode(Instruction::Rol, AddrMode::AbsoluteX, CycleLen::Constant(7))),
            0x6A => Some(Opcode(Instruction::Ror, AddrMode::Accumulator, CycleLen::Constant(2))),
            0x66 => Some(Opcode(Instruction::Ror, AddrMode::ZeroPage, CycleLen::Constant(5))),
            0x76 => Some(Opcode(Instruction::Ror, AddrMode::ZeroPageX, CycleLen::Constant(6))),
            0x6E => Some(Opcode(Instruction::Ror, AddrMode::Absolute, CycleLen::Constant(6))),
            0x7E => Some(Opcode(Instruction::Ror, AddrMode::AbsoluteX, CycleLen::Constant(7))),
            0x40 => Some(Opcode(Instruction::Rti, AddrMode::Implicit, CycleLen::Constant(6))),
            0x60 => Some(Opcode(Instruction::Rts, AddrMode::Implicit, CycleLen::Constant(6))),
            0xE9 => Some(Opcode(Instruction::Sbc, AddrMode::Immediate, CycleLen::Constant(2))),
            0xE5 => Some(Opcode(Instruction::Sbc, AddrMode::ZeroPage, CycleLen::Constant(3))),
            0xF5 => Some(Opcode(Instruction::Sbc, AddrMode::ZeroPageX, CycleLen::Constant(4))),
            0xED => Some(Opcode(Instruction::Sbc, AddrMode::Absolute, CycleLen::Constant(4))),
            0xFD => Some(Opcode(Instruction::Sbc, AddrMode::AbsoluteX, CycleLen::PageCrossed(4))),
            0xF9 => Some(Opcode(Instruction::Sbc, AddrMode::AbsoluteY, CycleLen::PageCrossed(4))),
            0xE1 => Some(Opcode(Instruction::Sbc, AddrMode::IndirectX, CycleLen::Constant(6))),
            0xF1 => Some(Opcode(Instruction::Sbc, AddrMode::IndirectY, CycleLen::PageCrossed(5))),
            0x38 => Some(Opcode(Instruction::Sec, AddrMode::Implicit, CycleLen::Constant(2))),
            0xF8 => Some(Opcode(Instruction::Sed, AddrMode::Implicit, CycleLen::Constant(2))),
            0x78 => Some(Opcode(Instruction::Sei, AddrMode::Implicit, CycleLen::Constant(2))),
            0x85 => Some(Opcode(Instruction::Sta, AddrMode::ZeroPage, CycleLen::Constant(3))),
            0x95 => Some(Opcode(Instruction::Sta, AddrMode::ZeroPageX, CycleLen::Constant(4))),
            0x8D => Some(Opcode(Instruction::Sta, AddrMode::Absolute, CycleLen::Constant(4))),
            0x9D => Some(Opcode(Instruction::Sta, AddrMode::AbsoluteX, CycleLen::Constant(5))),
            0x99 => Some(Opcode(Instruction::Sta, AddrMode::AbsoluteY, CycleLen::Constant(5))),
            0x81 => Some(Opcode(Instruction::Sta, AddrMode::IndirectX, CycleLen::Constant(6))),
            0x91 => Some(Opcode(Instruction::Sta, AddrMode::IndirectY, CycleLen::Constant(6))),
            0x86 => Some(Opcode(Instruction::Stx, AddrMode::ZeroPage, CycleLen::Constant(3))),
            0x96 => Some(Opcode(Instruction::Stx, AddrMode::ZeroPageY, CycleLen::Constant(4))),
            0x8E => Some(Opcode(Instruction::Stx, AddrMode::Absolute, CycleLen::Constant(4))),
            0x84 => Some(Opcode(Instruction::Sty, AddrMode::ZeroPage, CycleLen::Constant(3))),
            0x94 => Some(Opcode(Instruction::Sty, AddrMode::ZeroPageX, CycleLen::Constant(4))),
            0x8C => Some(Opcode(Instruction::Sty, AddrMode::Absolute, CycleLen::Constant(4))),
            0xAA => Some(Opcode(Instruction::Tax, AddrMode::Implicit, CycleLen::Constant(2))),
            0xA8 => Some(Opcode(Instruction::Tay, AddrMode::Implicit, CycleLen::Constant(2))),
            0xBA => Some(Opcode(Instruction::Tsx, AddrMode::Implicit, CycleLen::Constant(2))),
            0x8A => Some(Opcode(Instruction::Txa, AddrMode::Implicit, CycleLen::Constant(2))),
            0x9A => Some(Opcode(Instruction::Txs, AddrMode::Implicit, CycleLen::Constant(2))),
            0x98 => Some(Opcode(Instruction::Tya, AddrMode::Implicit, CycleLen::Constant(2))),
            _ => None,
        }
    }

    /// Look an opcode byte up in the table. Whatever the table holds can be
    /// carried out: no entry pairs an instruction with a mode it cannot use.
    pub fn decode(code: u8) -> (decoded: Option<Self>)
        ensures
            decoded == Self::table(code),
            decoded matches Some(opcode) ==> opcode.is_executable() && opcode.is_timed(),
    {
        reveal(Opcode::table);
        match code {
            0x69 => Some(Opcode(Instruction::Adc, AddrMode::Immediate, CycleLen::Constant(2))),
            0x65 => Some(Opcode(Instruction::Adc, AddrMode::ZeroPage, CycleLen::Constant(3))),
            0x75 => Some(Opcode(Instruction::Adc, AddrMode::ZeroPageX, CycleLen::Constant(4))),
            0x6D => Some(Opcode(Instruction::Adc, AddrMode::Absolute, CycleLen::Constant(4))),
            0x7D => Some(Opcode(Instruction::Adc, AddrMode::AbsoluteX, CycleLen::PageCrossed(4))),
            0x79 => Some(Opcode(Instruction::Adc, AddrMode::AbsoluteY, CycleLen::PageCrossed(4))),
            0x61 => Some(Opcode(Instruction::Adc, AddrMode::IndirectX, CycleLen::Constant(6))),
            0x71 => Some(Opcode(Instruction::Adc, AddrMode::IndirectY, CycleLen::PageCrossed(5))),
            0x29 => Some(Opcode(Instruction::And, AddrMode::Immediate, CycleLen::Constant(2))),
            0x25 => Some(Opcode(Instruction::And, AddrMode::ZeroPage, CycleLen::Constant(3))),
            0x35 => Some(Opcode(Instruction::And, AddrMode::ZeroPageX, CycleLen::Constant(4))),
            0x2D => Some(Opcode(Instruction::And, AddrMode::Absolute, CycleLen::Constant(4))),
            0x3D => Some(Opcode(Instruction::And, AddrMode::AbsoluteX, CycleLen::PageCrossed(4))),
            0x39 => Some(Opcode(Instruction::And, AddrMode::AbsoluteY, CycleLen::PageCrossed(4))),
            0x21 => Some(Opcode(Instruction::And, AddrMode::IndirectX, CycleLen::Constant(6))),
            0x31 => Some(Opcode(Instruction::And, AddrMode::IndirectY, CycleLen::PageCrossed(5))),
            0x0A => Some(Opcode(Instruction::Asl, AddrMode::Accumulator, CycleLen::Constant(2))),
            0x06 => Some(Opcode(Instruction::Asl, AddrMode::ZeroPage, CycleLen::Constant(5))),
            0x16 => Some(Opcode(Instruction::Asl, AddrMode::ZeroPageX, CycleLen::Constant(6))),
            0x0E => Some(Opcode(Instruction::Asl, AddrMode::Absolute, CycleLen::Constant(6))),
            0x1E => Some(Opcode(Instruction::Asl, AddrMode::AbsoluteX, CycleLen::Constant(7))),
            0x90 => Some(Opcode(Instruction::Bcc, AddrMode::Relative, CycleLen::Branch)),
            0xB0 => Some(Opcode(Instruction::Bcs, AddrMode::Relative, CycleLen::Branch)),
            0xF0 => Some(Opcode(Instruction::Beq, AddrMode::Relative, CycleLen::Branch)),
            0x24 => Some(Opcode(Instruction::Bit, AddrMode::ZeroPage, CycleLen::Constant(3))),
            0x2C => Some(Opcode(Instruction::Bit, AddrMode::Absolute, CycleLen::Constant(4))),
            0x30 => Some(Opcode(Instruction::Bmi, AddrMode::Relative, CycleLen::Branch)),
            0xD0 => Some(Opcode(Instruction::Bne, AddrMode::Relative, CycleLen::Branch)),
            0x10 => Some(Opcode(Instruction::Bpl, AddrMode::Relative, CycleLen::Branch)),
            0x00 => Some(Opcode(Instruction::Brk, AddrMode::Implicit, CycleLen::Constant(7))),
            0x50 => Some(Opcode(Instruction::Bvc, AddrMode::Relative, CycleLen::Branch)),
            0x70 => Some(Opcode(Instruction::Bvs, AddrMode::Relative, CycleLen::Branch)),
            0x18 => Some(Opcode(Instruction::Clc, AddrMode::Implicit, CycleLen::Constant(2))),
            0xD8 => Some(Opcode(Instruction::Cld, AddrMode::Implicit, CycleLen::Constant(2))),
            0x58 => Some(Opcode(Instruction::Cli, AddrMode::Implicit, CycleLen::Constant(2))),
            0xB8 => Some(Opcode(Instruction::Clv, AddrMode::Implicit, CycleLen::Constant(2))),
            0xC9 => Some(Opcode(Instruction::Cmp, AddrMode::Immediate, CycleLen::Constant(2))),
            0xC5 => Some(Opcode(Instruction::Cmp, AddrMode::ZeroPage, CycleLen::Constant(3))),
            0xD5 => Some(Opcode(Instruction::Cmp, AddrMode::ZeroPageX, CycleLen::Constant(4))),
            0xCD => Some(Opcode(Instruction::Cmp, AddrMode::Absolute, CycleLen::Constant(4))),
            0xDD => Some(Opcode(Instruction::Cmp, AddrMode::AbsoluteX, CycleLen::PageCrossed(4))),
            0xD9 => Some(Opcode(Instruction::Cmp, AddrMode::AbsoluteY, CycleLen::PageCrossed(4))),
            0xC1 => Some(Opcode(Instruction::Cmp, AddrMode::IndirectX, CycleLen::Constant(6))),
            0xD1 => Some(Opcode(Instruction::Cmp, AddrMode::IndirectY, CycleLen::PageCrossed(5))),
            0xE0 => Some(Opcode(Instruction::Cpx, AddrMode::Immediate, CycleLen::Constant(2))),
            0xE4 => Some(Opcode(Instruction::Cpx, AddrMode::ZeroPage, CycleLen::Constant(3))),
            0xEC => Some(Opcode(Instruction::Cpx, AddrMode::Absolute, CycleLen::Constant(4))),
            0xC0 => Some(Opcode(Instruction::Cpy, AddrMode::Immediate, CycleLen::Constant(2))),
            0xC4 => Some(Opcode(Instruction::Cpy, AddrMode::ZeroPage, CycleLen::Constant(3))),
            0xCC => Some(Opcode(Instruction::Cpy, AddrMode::Absolute, CycleLen::Constant(4))),
            0xC6 => Some(Opcode(Instruction::Dec, AddrMode::ZeroPage, CycleLen::Constant(5))),
            0xD6 => Some(Opcode(Instruction::Dec, AddrMode::ZeroPageX, CycleLen::Constant(6))),
            0xCE => Some(Opcode(Instruction::Dec, AddrMode::Absolute, CycleLen::Constant(6))),
            0xDE => Some(Opcode(Instruction::Dec, AddrMode::AbsoluteX, CycleLen::Constant(7))),
            0xCA => Some(Opcode(Instruction::Dex, AddrMode::Implicit, CycleLen::Constant(2))),
            0x88 => Some(Opcode(Instruction::Dey, AddrMode::Implicit, CycleLen::Constant(2))),
            0x49 => Some(Opcode(Instruction::Eor, AddrMode::Immediate, CycleLen::Constant(2))),
            0x45 => Some(Opcode(Instruction::Eor, AddrMode::ZeroPage, CycleLen::Constant(3))),
            0x55 => Some(Opcode(Instruction::Eor, AddrMode::ZeroPageX, CycleLen::Constant(4))),
            0x4D => Some(Opcode(Instruction::Eor, AddrMode::Absolute, CycleLen::Constant(4))),
            0x5D => Some(Opcode(Instruction::Eor, AddrMode::AbsoluteX, CycleLen::PageCrossed(4))),
            0x59 => Some(Opcode(Instruction::Eor, AddrMode::AbsoluteY, CycleLen::PageCrossed(4))),
            0x41 => Some(Opcode(Instruction::Eor, AddrMode::IndirectX, CycleLen::Constant(6))),
            0x51 => Some(Opcode(Instruction::Eor, AddrMode::IndirectY, CycleLen::PageCrossed(5))),
            0xE6 => Some(Opcode(Instruction::Inc, AddrMode::ZeroPage, CycleLen::Constant(5))),
            0xF6 => Some(Opcode(Instruction::Inc, AddrMode::ZeroPageX, CycleLen::Constant(6))),
            0xEE => Some(Opcode(Instruction::Inc, AddrMode::Absolute, CycleLen::Constant(6))),
            0xFE => Some(Opcode(Instruction::Inc, AddrMode::AbsoluteX, CycleLen::Constant(7))),
            0xE8 => Some(Opcode(Instruction::Inx, AddrMode::Implicit, CycleLen::Constant(2))),
            0xC8 => Some(Opcode(Instruction::Iny, AddrMode::Implicit, CycleLen::Constant(2))),
            0x4C => Some(Opcode(Instruction::Jmp, AddrMode::Absolute, CycleLen::Constant(3))),
            0x6C => Some(Opcode(Instruction::Jmp, AddrMode::Indirect, CycleLen::Constant(5))),
            0x20 => Some(Opcode(Instruction::Jsr, AddrMode::Absolute, CycleLen::Constant(6))),
            0xA9 => Some(Opcode(Instruction::Lda, AddrMode::Immediate, CycleLen::Constant(2))),
            0xA5 => Some(Opcode(Instruction::Lda, AddrMode::ZeroPage, CycleLen::Constant(3))),
            0xB5 => Some(Opcode(Instruction::Lda, AddrMode::ZeroPageX, CycleLen::Constant(4))),
            0xAD => Some(Opcode(Instruction::Lda, AddrMode::Absolute, CycleLen::Constant(4))),
            0xBD => Some(Opcode(Instruction::Lda, AddrMode::AbsoluteX, CycleLen::PageCrossed(4))),
            0xB9 => Some(Opcode(Instruction::Lda, AddrMode::AbsoluteY, CycleLen::PageCrossed(4))),
            0xA1 => Some(Opcode(Instruction::Lda, AddrMode::IndirectX, CycleLen::Constant(6))),
            0xB1 => Some(Opcode(Instruction::Lda, AddrMode::IndirectY, CycleLen::PageCrossed(5))),
            0xA2 => Some(Opcode(Instruction::Ldx, AddrMode::Immediate, CycleLen::Constant(2))),
            0xA6 => Some(Opcode(Instruction::Ldx, AddrMode::ZeroPage, CycleLen::Constant(3))),
            0xB6 => Some(Opcode(Instruction::Ldx, AddrMode::ZeroPageY, CycleLen::Constant(4))),
            0xAE => Some(Opcode(Instruction::Ldx, AddrMode::Absolute, CycleLen::Constant(4))),
            0xBE => Some(Opcode(Instruction::Ldx, AddrMode::AbsoluteY, CycleLen::PageCrossed(4))),
            0xA0 => Some(Opcode(Instruction::Ldy, AddrMode::Immediate, CycleLen::Constant(2))),
            0xA4 => Some(Opcode(Instruction::Ldy, AddrMode::ZeroPage, CycleLen::Constant(3))),
            0xB4 => Some(Opcode(Instruction::Ldy, AddrMode::ZeroPageX, CycleLen::Constant(4))),
            0xAC => Some(Opcode(Instruction::Ldy, AddrMode::Absolute, CycleLen::Constant(4))),
            0xBC => Some(Opcode(Instruction::Ldy, AddrMode::AbsoluteX, CycleLen::PageCrossed(4))),
            0x4A => Some(Opcode(Instruction::Lsr, AddrMode::Accumulator, CycleLen::Constant(2))),
            0x46 => Some(Opcode(Instruction::Lsr, AddrMode::ZeroPage, CycleLen::Constant(5))),
            0x56 => Some(Opcode(Instruction::Lsr, AddrMode::ZeroPageX, CycleLen::Constant(6))),
            0x4E => Some(Opcode(Instruction::Lsr, AddrMode::Absolute, CycleLen::Constant(6))),
            0x5E => Some(Opcode(Instruction::Lsr, AddrMode::AbsoluteX, CycleLen::Constant(7))),
            0xEA => Some(Opcode(Instruction::Nop, AddrMode::Implicit, CycleLen::Constant(2))),
            0x09 => Some(Opcode(Instruction::Ora, AddrMode::Immediate, CycleLen::Constant(2))),
            0x05 => Some(Opcode(Instruction::Ora, AddrMode::ZeroPage, CycleLen::Constant(3))),
            0x15 => Some(Opcode(Instruction::Ora, AddrMode::ZeroPageX, CycleLen::Constant(4))),
            0x0D => Some(Opcode(Instruction::Ora, AddrMode::Absolute, CycleLen::Constant(4))),
            0x1D => Some(Opcode(Instruction::Ora, AddrMode::AbsoluteX, CycleLen::PageCrossed(4))),
            0x19 => Some(Opcode(Instruction::Ora, AddrMode::AbsoluteY, CycleLen::PageCrossed(4))),
            0x01 => Some(Opcode(Instruction::Ora, AddrMode::IndirectX, CycleLen::Constant(6))),
            0x11 => Some(Opcode(Instruction::Ora, AddrMode::IndirectY, CycleLen::PageCrossed(5))),
            0x48 => Some(Opcode(Instruction::Pha, AddrMode::Implicit, CycleLen::Constant(3))),
            0x08 => Some(Opcode(Instruction::Php, AddrMode::Implicit, CycleLen::Constant(3))),
            0x68 => Some(Opcode(Instruction::Pla, AddrMode::Implicit, CycleLen::Constant(4))),
            0x28 => Some(Opcode(Instruction::Plp, AddrMode::Implicit, CycleLen::Constant(4))),
            0x2A => Some(Opcode(Instruction::Rol, AddrMode::Accumulator, CycleLen::Constant(2))),
            0x26 => Some(Opcode(Instruction::Rol, AddrMode::ZeroPage, CycleLen::Constant(5))),
            0x36 => Some(Opcode(Instruction::Rol, AddrMode::ZeroPageX, CycleLen::Constant(6))),
            0x2E => Some(Opcode(Instruction::Rol, AddrMode::Absolute, CycleLen::Constant(6))),
            0x3E => Some(Opcode(Instruction::Rol, AddrMode::AbsoluteX, CycleLen::Constant(7))),
            0x6A => Some(Opcode(Instruction::Ror, AddrMode::Accumulator, CycleLen::Constant(2))),
            0x66 => Some(Opcode(Instruction::Ror, AddrMode::ZeroPage, CycleLen::Constant(5))),
            0x76 => Some(Opcode(Instruction::Ror, AddrMode::ZeroPageX, CycleLen::Constant(6))),
            0x6E => Some(Opcode(Instruction::Ror, AddrMode::Absolute, CycleLen::Constant(6))),
            0x7E => Some(Opcode(Instruction::Ror, AddrMode::AbsoluteX, CycleLen::Constant(7))),
            0x40 => Some(Opcode(Instruction::Rti, AddrMode::Implicit, CycleLen::Constant(6))),
            0x60 => Some(Opcode(Instruction::Rts, AddrMode::Implicit, CycleLen::Constant(6))),
            0xE9 => Some(Opcode(Instruction::Sbc, AddrMode::Immediate, CycleLen::Constant(2))),
            0xE5 => Some(Opcode(Instruction::Sbc, AddrMode::ZeroPage, CycleLen::Constant(3))),
            0xF5 => Some(Opcode(Instruction::Sbc, AddrMode::ZeroPageX, CycleLen::Constant(4))),
            0xED => Some(Opcode(Instruction::Sbc, AddrMode::Absolute, CycleLen::Constant(4))),
            0xFD => Some(Opcode(Instruction::Sbc, AddrMode::AbsoluteX, CycleLen::PageCrossed(4))),
            0xF9 => Some(Opcode(Instruction::Sbc, AddrMode::AbsoluteY, CycleLen::PageCrossed(4))),
            0xE1 => Some(Opcode(Instruction::Sbc, AddrMode::IndirectX, CycleLen::Constant(6))),
            0xF1 => Some(Opcode(Instruction::Sbc, AddrMode::IndirectY, CycleLen::PageCrossed(5))),
            0x38 => Some(Opcode(Instruction::Sec, AddrMode::Implicit, CycleLen::Constant(2))),
            0xF8 => Some(Opcode(Instruction::Sed, AddrMode::Implicit, CycleLen::Constant(2))),
            0x78 => Some(Opcode(Instruction::Sei, AddrMode::Implicit, CycleLen::Constant(2))),
            0x85 => Some(Opcode(Instruction::Sta, AddrMode::ZeroPage, CycleLen::Constant(3))),
            0x95 => Some(Opcode(Instruction::Sta, AddrMode::ZeroPageX, CycleLen::Constant(4))),
            0x8D => Some(Opcode(Instruction::Sta, AddrMode::Absolute, CycleLen::Constant(4))),
            0x9D => Some(Opcode(Instruction::Sta, AddrMode::AbsoluteX, CycleLen::Constant(5))),
            0x99 => Some(Opcode(Instruction::Sta, AddrMode::AbsoluteY, CycleLen::Constant(5))),
            0x81 => Some(Opcode(Instruction::Sta, AddrMode::IndirectX, CycleLen::Constant(6))),
            0x91 => Some(Opcode(Instruction::Sta, AddrMode::IndirectY, CycleLen::Constant(6))),
            0x86 => Some(Opcode(Instruction::Stx, AddrMode::ZeroPage, CycleLen::Constant(3))),
            0x96 => Some(Opcode(Instruction::Stx, AddrMode::ZeroPageY, CycleLen::Constant(4))),
            0x8E => Some(Opcode(Instruction::Stx, AddrMode::Absolute, CycleLen::Constant(4))),
            0x84 => Some(Opcode(Instruction::Sty, AddrMode::ZeroPage, CycleLen::Constant(3))),
            0x94 => Some(Opcode(Instruction::Sty, AddrMode::ZeroPageX, CycleLen::Constant(4))),
            0x8C => Some(Opcode(Instruction::Sty, AddrMode::Absolute, CycleLen::Constant(4))),
            0xAA => Some(Opcode(Instruction::Tax, AddrMode::Implicit, CycleLen::Constant(2))),
            0xA8 => Some(Opcode(Instruction::Tay, AddrMode::Implicit, CycleLen::Constant(2))),
            0xBA => Some(Opcode(Instruction::Tsx, AddrMode::Implicit, CycleLen::Constant(2))),
            0x8A => Some(Opcode(Instruction::Txa, AddrMode::Implicit, CycleLen::Constant(2))),
            0x9A => Some(Opcode(Instruction::Txs, AddrMode::Implicit, CycleLen::Constant(2))),
            0x98 => Some(Opcode(Instruction::Tya, AddrMode::Implicit, CycleLen::Constant(2))),
            _ => None,
        }
    }
}

/// Every entry of the opcode table pairs its instruction with a mode that
/// the instruction can use, and gives it the timing that the instruction
/// has with that mode.
pub proof fn lemma_table_is_consistent(code: u8)
    ensures
        Opcode::table(code) matches Some(opcode) ==> opcode.is_executable() && opcode.is_timed(),
{
    reveal(Opcode::table);
}

/// No two bytes stand for the same instruction with the same mode.
pub proof fn lemma_table_has_no_duplicate(first: u8, second: u8)
    requires
        Opcode::table(first) matches Some(a) && Opcode::table(second) matches Some(b) && a.0 == b.0
            && a.1 == b.1,
    ensures
        first == second,
{
    reveal(Opcode::table);
}

} // verus!
