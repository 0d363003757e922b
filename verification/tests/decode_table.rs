//! The opcode table and addressing-mode operand lengths.

use clinker6502_core::bus::le_word;
use clinker6502_core::cpu::decode::{decode, AddrMode, Decoded, Mnemonic};

#[test]
fn operand_len_per_mode() {
    assert_eq!(AddrMode::Implied.operand_len(), 0);
    assert_eq!(AddrMode::Accumulator.operand_len(), 0);
    assert_eq!(AddrMode::Immediate.operand_len(), 1);
    assert_eq!(AddrMode::ZeroPage.operand_len(), 1);
    assert_eq!(AddrMode::ZeroPageX.operand_len(), 1);
    assert_eq!(AddrMode::ZeroPageY.operand_len(), 1);
    assert_eq!(AddrMode::Relative.operand_len(), 1);
    assert_eq!(AddrMode::IndirectX.operand_len(), 1);
    assert_eq!(AddrMode::IndirectY.operand_len(), 1);
    assert_eq!(AddrMode::Absolute.operand_len(), 2);
    assert_eq!(AddrMode::AbsoluteX.operand_len(), 2);
    assert_eq!(AddrMode::AbsoluteY.operand_len(), 2);
    assert_eq!(AddrMode::Indirect.operand_len(), 2);
}

#[test]
fn decode_known_entries() {
    assert_eq!(
        decode(0x00),
        Some(Decoded { mnemonic: Mnemonic::Brk, mode: AddrMode::Implied, base_cycles: 7 })
    );
    assert_eq!(
        decode(0x6C),
        Some(Decoded { mnemonic: Mnemonic::Jmp, mode: AddrMode::Indirect, base_cycles: 5 })
    );
    assert_eq!(
        decode(0xB1),
        Some(Decoded { mnemonic: Mnemonic::Lda, mode: AddrMode::IndirectY, base_cycles: 5 })
    );
    assert_eq!(
        decode(0x8D),
        Some(Decoded { mnemonic: Mnemonic::Sta, mode: AddrMode::Absolute, base_cycles: 4 })
    );
    assert_eq!(
        decode(0xF0),
        Some(Decoded { mnemonic: Mnemonic::Beq, mode: AddrMode::Relative, base_cycles: 2 })
    );
}

#[test]
fn unwired_opcodes_decode_to_none() {
    assert_eq!(decode(0xFF), None);
    assert_eq!(decode(0x02), None);
    assert_eq!(decode(0x69), None);
    let wired = (0..=255u8).filter(|&op| decode(op).is_some()).count();
    assert_eq!(wired, 35);
}

#[test]
fn base_cycles_between_two_and_seven() {
    for op in 0..=255u8 {
        if let Some(ins) = decode(op) {
            assert!(2 <= ins.base_cycles && ins.base_cycles <= 7);
        }
    }
}

#[test]
fn every_mode_has_a_wired_opcode() {
    let modes = [
        AddrMode::Implied,
        AddrMode::Accumulator,
        AddrMode::Immediate,
        AddrMode::ZeroPage,
        AddrMode::ZeroPageX,
        AddrMode::ZeroPageY,
        AddrMode::Relative,
        AddrMode::Absolute,
        AddrMode::AbsoluteX,
        AddrMode::AbsoluteY,
        AddrMode::Indirect,
        AddrMode::IndirectX,
        AddrMode::IndirectY,
    ];
    for mode in modes {
        assert!((0..=255u8).any(|op| decode(op).map(|d| d.mode) == Some(mode)));
    }
}

#[test]
fn accumulator_and_zero_page_y_entries() {
    assert_eq!(
        decode(0x0A),
        Some(Decoded { mnemonic: Mnemonic::Asl, mode: AddrMode::Accumulator, base_cycles: 2 })
    );
    assert_eq!(
        decode(0xB6),
        Some(Decoded { mnemonic: Mnemonic::Ldx, mode: AddrMode::ZeroPageY, base_cycles: 4 })
    );
}

#[test]
fn le_word_puts_the_low_byte_first() {
    assert_eq!(le_word(0x34, 0x12), 0x1234);
    assert_eq!(le_word(0xFF, 0x00), 0x00FF);
    assert_eq!(le_word(0x00, 0xFF), 0xFF00);
}
