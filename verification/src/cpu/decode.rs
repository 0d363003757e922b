//! Opcode to operation, addressing mode and base cycle count.
//!
//! The table structure is final and all 56 official mnemonics are defined, but
//! only a representative subset of opcodes is wired up: at least one per
//! addressing mode. Unwired opcodes decode to `None`.
use vstd::prelude::*;

verus! {

/// The 6502 addressing modes.
#[derive(Debug, Clone, Copy, PartialEq, Eq, Structural)]
pub enum AddrMode {
    Implied,
    Accumulator,
    Immediate,
    ZeroPage,
    ZeroPageX,
    ZeroPageY,
    Relative,
    Absolute,
    AbsoluteX,
    AbsoluteY,
    Indirect,
    IndirectX,
    IndirectY,
}

/// Number of operand bytes that follow the opcode byte in `mode`.
pub open spec fn operand_len_spec(mode: AddrMode) -> u8 {
    match mode {
        AddrMode::Implied | AddrMode::Accumulator => 0,
        AddrMode::Absolute | AddrMode::AbsoluteX | AddrMode::AbsoluteY | AddrMode::Indirect => 2,
        _ => 1,
    }
}

impl AddrMode {
    /// Number of operand bytes that follow the opcode byte.
    pub fn operand_len(self) -> (n: u8)
        ensures
            n == operand_len_spec(self),
            n <= 2,
    {
        match self {
            AddrMode::Implied | AddrMode::Accumulator => 0,
            AddrMode::Immediate
            | AddrMode::ZeroPage
            | AddrMode::ZeroPageX
            | AddrMode::ZeroPageY
            | AddrMode::Relative
            | AddrMode::IndirectX
            | AddrMode::IndirectY => 1,
            AddrMode::Absolute
            | AddrMode::AbsoluteX
            | AddrMode::AbsoluteY
            | AddrMode::Indirect => 2,
        }
    }
}

/// Every official 6502 operation.
#[derive(Debug, Clone, Copy, PartialEq, Eq, Structural)]
pub enum Mnemonic {
    Adc, And, Asl, Bcc, Bcs, Beq, Bit, Bmi, Bne, Bpl, Brk, Bvc, Bvs,
    Clc, Cld, Cli, Clv, Cmp, Cpx, Cpy, Dec, Dex, Dey, Eor, Inc, Inx,
    Iny, Jmp, Jsr, Lda, Ldx, Ldy, Lsr, Nop, Ora, Pha, Php, Pla, Plp,
    Rol, Ror, Rti, Rts, Sbc, Sec, Sed, Sei, Sta, Stx, Sty, Tax, Tay,
    Tsx, Txa, Txs, Tya,
}

/// A decoded opcode.
#[derive(Debug, Clone, Copy, PartialEq, Eq, Structural)]
pub struct Decoded {
    pub mnemonic: Mnemonic,
    pub mode: AddrMode,
    /// Cycles before page-cross and branch-taken penalties.
    pub base_cycles: u8,
}

/// The table entry `mnemonic` in `mode`, taking `base_cycles` cycles.
pub open spec fn entry(mnemonic: Mnemonic, mode: AddrMode, base_cycles: u8) -> Option<Decoded> {
    Some(Decoded { mnemonic, mode, base_cycles })
}

/// The opcode table: what each opcode byte decodes to, `None` where the opcode
/// is not wired.
pub open spec fn decode_table(opcode: u8) -> Option<Decoded> {
    match opcode {
        0x00u8 => entry(Mnemonic::Brk, AddrMode::Implied, 7),
        0xEAu8 => entry(Mnemonic::Nop, AddrMode::Implied, 2),
        // Shifts
        0x0Au8 => entry(Mnemonic::Asl, AddrMode::Accumulator, 2),
        // Control flow
        0x4Cu8 => entry(Mnemonic::Jmp, AddrMode::Absolute, 3),
        0x6Cu8 => entry(Mnemonic::Jmp, AddrMode::Indirect, 5),
        0x20u8 => entry(Mnemonic::Jsr, AddrMode::Absolute, 6),
        0x60u8 => entry(Mnemonic::Rts, AddrMode::Implied, 6),
        0x40u8 => entry(Mnemonic::Rti, AddrMode::Implied, 6),
        // Flag ops
        0x18u8 => entry(Mnemonic::Clc, AddrMode::Implied, 2),
        0x38u8 => entry(Mnemonic::Sec, AddrMode::Implied, 2),
        0x58u8 => entry(Mnemonic::Cli, AddrMode::Implied, 2),
        0x78u8 => entry(Mnemonic::Sei, AddrMode::Implied, 2),
        // Loads
        0xA9u8 => entry(Mnemonic::Lda, AddrMode::Immediate, 2),
        0xA5u8 => entry(Mnemonic::Lda, AddrMode::ZeroPage, 3),
        0xB5u8 => entry(Mnemonic::Lda, AddrMode::ZeroPageX, 4),
        0xADu8 => entry(Mnemonic::Lda, AddrMode::Absolute, 4),
        0xBDu8 => entry(Mnemonic::Lda, AddrMode::AbsoluteX, 4),
        0xB9u8 => entry(Mnemonic::Lda, AddrMode::AbsoluteY, 4),
        0xA1u8 => entry(Mnemonic::Lda, AddrMode::IndirectX, 6),
        0xB1u8 => entry(Mnemonic::Lda, AddrMode::IndirectY, 5),
        0xA2u8 => entry(Mnemonic::Ldx, AddrMode::Immediate, 2),
        0xB6u8 => entry(Mnemonic::Ldx, AddrMode::ZeroPageY, 4),
        0xA0u8 => entry(Mnemonic::Ldy, AddrMode::Immediate, 2),
        // Stores
        0x85u8 => entry(Mnemonic::Sta, AddrMode::ZeroPage, 3),
        0x8Du8 => entry(Mnemonic::Sta, AddrMode::Absolute, 4),
        // Register ops
        0xAAu8 => entry(Mnemonic::Tax, AddrMode::Implied, 2),
        0xA8u8 => entry(Mnemonic::Tay, AddrMode::Implied, 2),
        0xE8u8 => entry(Mnemonic::Inx, AddrMode::Implied, 2),
        0xC8u8 => entry(Mnemonic::Iny, AddrMode::Implied, 2),
        0xCAu8 => entry(Mnemonic::Dex, AddrMode::Implied, 2),
        0x88u8 => entry(Mnemonic::Dey, AddrMode::Implied, 2),
        // Branches
        0x10u8 => entry(Mnemonic::Bpl, AddrMode::Relative, 2),
        0x30u8 => entry(Mnemonic::Bmi, AddrMode::Relative, 2),
        0xD0u8 => entry(Mnemonic::Bne, AddrMode::Relative, 2),
        0xF0u8 => entry(Mnemonic::Beq, AddrMode::Relative, 2),
        _ => None,
    }
}

fn d(mnemonic: Mnemonic, mode: AddrMode, base_cycles: u8) -> (r: Decoded)
    ensures
        Some(r) == entry(mnemonic, mode, base_cycles),
{
    Decoded { mnemonic, mode, base_cycles }
}

/// Decode one opcode byte. `None` means the opcode is not wired.
pub fn decode(opcode: u8) -> (r: Option<Decoded>)
    ensures
        r == decode_table(opcode),
{
    Some(match opcode {
        0x00 => d(Mnemonic::Brk, AddrMode::Implied, 7),
        0xEA => d(Mnemonic::Nop, AddrMode::Implied, 2),

        // Shifts
        0x0A => d(Mnemonic::Asl, AddrMode::Accumulator, 2),

        // Control flow
        0x4C => d(Mnemonic::Jmp, AddrMode::Absolute, 3),
        0x6C => d(Mnemonic::Jmp, AddrMode::Indirect, 5),
        0x20 => d(Mnemonic::Jsr, AddrMode::Absolute, 6),
        0x60 => d(Mnemonic::Rts, AddrMode::Implied, 6),
        0x40 => d(Mnemonic::Rti, AddrMode::Implied, 6),

        // Flag ops
        0x18 => d(Mnemonic::Clc, AddrMode::Implied, 2),
        0x38 => d(Mnemonic::Sec, AddrMode::Implied, 2),
        0x58 => d(Mnemonic::Cli, AddrMode::Implied, 2),
        0x78 => d(Mnemonic::Sei, AddrMode::Implied, 2),

        // LDA: one entry per addressing mode it supports
        0xA9 => d(Mnemonic::Lda, AddrMode::Immediate, 2),
        0xA5 => d(Mnemonic::Lda, AddrMode::ZeroPage, 3),
        0xB5 => d(Mnemonic::Lda, AddrMode::ZeroPageX, 4),
        0xAD => d(Mnemonic::Lda, AddrMode::Absolute, 4),
        0xBD => d(Mnemonic::Lda, AddrMode::AbsoluteX, 4),
        0xB9 => d(Mnemonic::Lda, AddrMode::AbsoluteY, 4),
        0xA1 => d(Mnemonic::Lda, AddrMode::IndirectX, 6),
        0xB1 => d(Mnemonic::Lda, AddrMode::IndirectY, 5),
        0xA2 => d(Mnemonic::Ldx, AddrMode::Immediate, 2),
        0xB6 => d(Mnemonic::Ldx, AddrMode::ZeroPageY, 4),
        0xA0 => d(Mnemonic::Ldy, AddrMode::Immediate, 2),

        // Stores
        0x85 => d(Mnemonic::Sta, AddrMode::ZeroPage, 3),
        0x8D => d(Mnemonic::Sta, AddrMode::Absolute, 4),

        // Register ops
        0xAA => d(Mnemonic::Tax, AddrMode::Implied, 2),
        0xA8 => d(Mnemonic::Tay, AddrMode::Implied, 2),
        0xE8 => d(Mnemonic::Inx, AddrMode::Implied, 2),
        0xC8 => d(Mnemonic::Iny, AddrMode::Implied, 2),
        0xCA => d(Mnemonic::Dex, AddrMode::Implied, 2),
        0x88 => d(Mnemonic::Dey, AddrMode::Implied, 2),

        // Branches
        0x10 => d(Mnemonic::Bpl, AddrMode::Relative, 2),
        0x30 => d(Mnemonic::Bmi, AddrMode::Relative, 2),
        0xD0 => d(Mnemonic::Bne, AddrMode::Relative, 2),
        0xF0 => d(Mnemonic::Beq, AddrMode::Relative, 2),

        _ => return None,
    })
}

/// Every wired opcode charges between 2 and 7 base cycles.
pub proof fn lemma_base_cycles_bounded(opcode: u8)
    ensures
        decode_table(opcode) matches Some(ins) ==> 2 <= ins.base_cycles <= 7,
{
}

/// Every addressing mode has at least one wired opcode.
pub proof fn lemma_modes_wired(mode: AddrMode)
    ensures
        exists|opcode: u8| #[trigger] decode_table(opcode) matches Some(ins) && ins.mode == mode,
{
    let witness: u8 = match mode {
        AddrMode::Implied => 0xEA,
        AddrMode::Accumulator => 0x0A,
        AddrMode::ZeroPageY => 0xB6,
        AddrMode::Immediate => 0xA9,
        AddrMode::ZeroPage => 0xA5,
        AddrMode::ZeroPageX => 0xB5,
        AddrMode::Relative => 0x10,
        AddrMode::Absolute => 0xAD,
        AddrMode::AbsoluteX => 0xBD,
        AddrMode::AbsoluteY => 0xB9,
        AddrMode::Indirect => 0x6C,
        AddrMode::IndirectX => 0xA1,
        AddrMode::IndirectY => 0xB1,
    };
    assert(decode_table(witness) matches Some(ins) && ins.mode == mode);
}

/// The addressing mode that the 6502 opcode byte `op` selects through its bit
/// fields `aaabbbcc`: in group `cc = 01` the column `bbb` alone picks the mode,
/// in groups `00` and `10` the column picks it with a few exceptions fixed by
/// the row `aaa` (`JSR`, the returns, `JMP (ind)`, the immediate loads and
/// compares, the accumulator shifts, and the `,Y` forms of `LDX`/`STX`).
pub open spec fn opcode_mode(op: u8) -> AddrMode {
    let cc = op % 4;
    let bbb = (op / 4) % 8;
    let aaa = op / 32;
    if cc == 1 {
        if bbb == 0 {
            AddrMode::IndirectX
        } else if bbb == 1 {
            AddrMode::ZeroPage
        } else if bbb == 2 {
            AddrMode::Immediate
        } else if bbb == 3 {
            AddrMode::Absolute
        } else if bbb == 4 {
            AddrMode::IndirectY
        } else if bbb == 5 {
            AddrMode::ZeroPageX
        } else if bbb == 6 {
            AddrMode::AbsoluteY
        } else {
            AddrMode::AbsoluteX
        }
    } else if cc == 2 {
        if bbb == 0 {
            AddrMode::Immediate
        } else if bbb == 1 {
            AddrMode::ZeroPage
        } else if bbb == 2 {
            if aaa < 4 { AddrMode::Accumulator } else { AddrMode::Implied }
        } else if bbb == 3 {
            AddrMode::Absolute
        } else if bbb == 5 {
            if aaa == 4 || aaa == 5 { AddrMode::ZeroPageY } else { AddrMode::ZeroPageX }
        } else if bbb == 7 {
            if aaa == 5 { AddrMode::AbsoluteY } else { AddrMode::AbsoluteX }
        } else {
            AddrMode::Implied
        }
    } else {
        if bbb == 0 {
            if aaa == 1 {
                AddrMode::Absolute
            } else if aaa >= 5 {
                AddrMode::Immediate
            } else {
                AddrMode::Implied
            }
        } else if bbb == 1 {
            AddrMode::ZeroPage
        } else if bbb == 3 {
            if aaa == 3 { AddrMode::Indirect } else { AddrMode::Absolute }
        } else if bbb == 4 {
            AddrMode::Relative
        } else if bbb == 5 {
            AddrMode::ZeroPageX
        } else if bbb == 7 {
            AddrMode::AbsoluteX
        } else {
            AddrMode::Implied
        }
    }
}

/// Every wired opcode decodes to the addressing mode that its bit fields
/// select on the 6502.
pub proof fn lemma_mode_follows_opcode_bits(op: u8)
    ensures
        decode_table(op) matches Some(ins) ==> ins.mode == opcode_mode(op),
{
}

/// The operations that act on registers or flags alone, or only change the
/// flow of control without an operand, take no operand: the register
/// increments, decrements and transfers, the flag operations, `NOP`, `BRK`,
/// `RTS` and `RTI` decode in implied mode, and their instructions are one
/// byte long. The branches decode in relative mode.
pub proof fn lemma_operandless_mnemonics(op: u8)
    ensures
        decode_table(op) matches Some(ins) ==> {
            let m = ins.mnemonic;
            &&& (m == Mnemonic::Inx || m == Mnemonic::Iny || m == Mnemonic::Dex || m == Mnemonic::Dey
                || m == Mnemonic::Tax || m == Mnemonic::Tay || m == Mnemonic::Clc || m
                == Mnemonic::Sec || m == Mnemonic::Cli || m == Mnemonic::Sei || m == Mnemonic::Nop
                || m == Mnemonic::Brk || m == Mnemonic::Rts || m == Mnemonic::Rti) ==> ins.mode
                == AddrMode::Implied && operand_len_spec(ins.mode) == 0
            &&& (m == Mnemonic::Bpl || m == Mnemonic::Bmi || m == Mnemonic::Bne || m
                == Mnemonic::Beq) ==> ins.mode == AddrMode::Relative
        },
{
}

/// The documented base cycle count of a 6502 instruction `m` in mode `mode`
/// (before page-cross and branch-taken penalties).
pub open spec fn official_cycles(m: Mnemonic, mode: AddrMode) -> u8 {
    match m {
        Mnemonic::Brk => 7,
        Mnemonic::Jsr | Mnemonic::Rts | Mnemonic::Rti => 6,
        Mnemonic::Jmp => if mode == AddrMode::Indirect { 5 } else { 3 },
        _ => match mode {
            AddrMode::ZeroPage => 3,
            AddrMode::ZeroPageX | AddrMode::ZeroPageY | AddrMode::Absolute | AddrMode::AbsoluteX
            | AddrMode::AbsoluteY => 4,
            AddrMode::IndirectX => 6,
            AddrMode::IndirectY => 5,
            _ => 2,
        },
    }
}

/// Every wired opcode charges the documented base cycle count of its
/// operation and addressing mode.
pub proof fn lemma_cycles_are_official(op: u8)
    ensures
        decode_table(op) matches Some(ins) ==> ins.base_cycles == official_cycles(
            ins.mnemonic,
            ins.mode,
        ),
{
}

/// The operation that the official 6502 opcode byte `op` names, read from its
/// bit fields `aaabbbcc`: in groups `cc = 01` and `10` the row `aaa` names
/// the operation (with the implied transfers, decrement and `NOP` of column
/// `bbb = 010` and `110` in group `10` as exceptions); in group `00` the
/// columns of branches, flag operations and stack/register operations name
/// one each per row, and the other columns name `BRK`, `JSR`, `RTI`, `RTS`,
/// `BIT`, `JMP`, `STY`, `LDY`, `CPY` or `CPX` by row. `None` for a byte that
/// names no official operation.
pub open spec fn opcode_mnemonic(op: u8) -> Option<Mnemonic> {
    let cc = op % 4;
    let bbb = (op / 4) % 8;
    let aaa = op / 32;
    if cc == 1 {
        Some(
            if aaa == 0 {
                Mnemonic::Ora
            } else if aaa == 1 {
                Mnemonic::And
            } else if aaa == 2 {
                Mnemonic::Eor
            } else if aaa == 3 {
                Mnemonic::Adc
            } else if aaa == 4 {
                Mnemonic::Sta
            } else if aaa == 5 {
                Mnemonic::Lda
            } else if aaa == 6 {
                Mnemonic::Cmp
            } else {
                Mnemonic::Sbc
            },
        )
    } else if cc == 2 {
        if bbb == 2 && aaa >= 4 {
            if aaa == 4 {
                Some(Mnemonic::Txa)
            } else if aaa == 5 {
                Some(Mnemonic::Tax)
            } else if aaa == 6 {
                Some(Mnemonic::Dex)
            } else {
                Some(Mnemonic::Nop)
            }
        } else if bbb == 6 {
            if aaa == 4 {
                Some(Mnemonic::Txs)
            } else if aaa == 5 {
                Some(Mnemonic::Tsx)
            } else {
                None
            }
        } else {
            Some(
                if aaa == 0 {
                    Mnemonic::Asl
                } else if aaa == 1 {
                    Mnemonic::Rol
                } else if aaa == 2 {
                    Mnemonic::Lsr
                } else if aaa == 3 {
                    Mnemonic::Ror
                } else if aaa == 4 {
                    Mnemonic::Stx
                } else if aaa == 5 {
                    Mnemonic::Ldx
                } else if aaa == 6 {
                    Mnemonic::Dec
                } else {
                    Mnemonic::Inc
                },
            )
        }
    } else if cc == 0 {
        if bbb == 4 {
            Some(
                if aaa == 0 {
                    Mnemonic::Bpl
                } else if aaa == 1 {
                    Mnemonic::Bmi
                } else if aaa == 2 {
                    Mnemonic::Bvc
                } else if aaa == 3 {
                    Mnemonic::Bvs
                } else if aaa == 4 {
                    Mnemonic::Bcc
                } else if aaa == 5 {
                    Mnemonic::Bcs
                } else if aaa == 6 {
                    Mnemonic::Bne
                } else {
                    Mnemonic::Beq
                },
            )
        } else if bbb == 6 {
            Some(
                if aaa == 0 {
                    Mnemonic::Clc
                } else if aaa == 1 {
                    Mnemonic::Sec
                } else if aaa == 2 {
                    Mnemonic::Cli
                } else if aaa == 3 {
                    Mnemonic::Sei
                } else if aaa == 4 {
                    Mnemonic::Tya
                } else if aaa == 5 {
                    Mnemonic::Clv
                } else if aaa == 6 {
                    Mnemonic::Cld
                } else {
                    Mnemonic::Sed
                },
            )
        } else if bbb == 2 {
            Some(
                if aaa == 0 {
                    Mnemonic::Php
                } else if aaa == 1 {
                    Mnemonic::Plp
                } else if aaa == 2 {
                    Mnemonic::Pha
                } else if aaa == 3 {
                    Mnemonic::Pla
                } else if aaa == 4 {
                    Mnemonic::Dey
                } else if aaa == 5 {
                    Mnemonic::Tay
                } else if aaa == 6 {
                    Mnemonic::Iny
                } else {
                    Mnemonic::Inx
                },
            )
        } else if bbb == 0 && aaa <= 3 {
            Some(
                if aaa == 0 {
                    Mnemonic::Brk
                } else if aaa == 1 {
                    Mnemonic::Jsr
                } else if aaa == 2 {
                    Mnemonic::Rti
                } else {
                    Mnemonic::Rts
                },
            )
        } else if aaa == 1 {
            Some(Mnemonic::Bit)
        } else if aaa == 2 || aaa == 3 {
            Some(Mnemonic::Jmp)
        } else if aaa == 4 {
            Some(Mnemonic::Sty)
        } else if aaa == 5 {
            Some(Mnemonic::Ldy)
        } else if aaa == 6 {
            Some(Mnemonic::Cpy)
        } else if aaa == 7 {
            Some(Mnemonic::Cpx)
        } else {
            None
        }
    } else {
        None
    }
}

/// Every wired opcode decodes to the operation that its bit fields name on
/// the 6502.
pub proof fn lemma_mnemonic_follows_opcode_bits(op: u8)
    ensures
        decode_table(op) matches Some(ins) ==> opcode_mnemonic(op) == Some(ins.mnemonic),
{
}

} // verus!
