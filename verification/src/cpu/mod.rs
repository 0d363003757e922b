//! 6502 CPU model (NMOS).
//!
//! Instruction-stepped: [`Cpu::step`] executes one whole instruction and returns
//! its cycle count so the caller can advance peripherals by the same amount.
//! This is deliberately not a per-cycle bus-accurate core.
//!
//! Every opcode in [`decode::decode`] is decoded to an addressing mode and a
//! base cycle count, and `step` walks the real fetch, decode, execute and
//! advance-PC loop, but only a handful of operations touch the datapath. The
//! rest are recognised and cycle-charged with their logic still to come.
pub mod decode;
pub mod interrupt;

use vstd::prelude::*;
use crate::bus::{Bus, BusEvent, le_word, next_addr, word_read};
use decode::{decode, decode_table, lemma_base_cycles_bounded, operand_len_spec, AddrMode, Decoded, Mnemonic};
use interrupt::{Interrupt, interrupt_entry, reset_entry, vector_of, IRQ_VECTOR, NMI_VECTOR, RESET_VECTOR};

verus! {

/// 1 for a set flag, 0 for a clear one.
pub open spec fn flag(b: bool) -> int {
    if b { 1 } else { 0 }
}

/// The bit of weight `weight` (a power of two) is set in `b`.
pub open spec fn bit_set(b: u8, weight: int) -> bool {
    (b as int / weight) % 2 == 1
}

/// The processor status flags that are real state.
///
/// Bits 4 (B) and 5 are not stored: they exist only in the byte pushed to the
/// stack. Use [`Status::to_byte`] / [`Status::from_byte`] at those boundaries.
#[derive(Debug, Clone, Copy, PartialEq, Eq, Structural)]
pub struct Status {
    pub carry: bool,
    pub zero: bool,
    pub interrupt_disable: bool,
    pub decimal: bool,
    pub overflow: bool,
    pub negative: bool,
}

/// The status byte as pushed to the stack: C in bit 0, Z in bit 1, I in bit 2,
/// D in bit 3, the break flag in bit 4, bit 5 always 1, V in bit 6, N in bit 7.
pub open spec fn status_byte(s: Status, break_flag: bool) -> u8 {
    (flag(s.carry) + 2 * flag(s.zero) + 4 * flag(s.interrupt_disable) + 8 * flag(s.decimal) + 16
        * flag(break_flag) + 32 + 64 * flag(s.overflow) + 128 * flag(s.negative)) as u8
}

/// The flags that the status byte `b` holds; bits 4 and 5 are not flags.
pub open spec fn status_of(b: u8) -> Status {
    Status {
        carry: bit_set(b, 1),
        zero: bit_set(b, 2),
        interrupt_disable: bit_set(b, 4),
        decimal: bit_set(b, 8),
        overflow: bit_set(b, 64),
        negative: bit_set(b, 128),
    }
}

/// All flags clear.
pub open spec fn clear_status() -> Status {
    Status {
        carry: false,
        zero: false,
        interrupt_disable: false,
        decimal: false,
        overflow: false,
        negative: false,
    }
}

impl Default for Status {
    fn default() -> (s: Self)
        ensures
            s == clear_status(),
    {
        Status {
            carry: false,
            zero: false,
            interrupt_disable: false,
            decimal: false,
            overflow: false,
            negative: false,
        }
    }
}

impl Status {
    /// Pack into the on-stack byte layout. Bit 5 always reads as 1; bit 4
    /// reflects `break_flag` (set for `PHP`/`BRK`, clear for an IRQ/NMI push).
    pub fn to_byte(self, break_flag: bool) -> (b: u8)
        ensures
            b == status_byte(self, break_flag),
            bit_set(b, 32),
            bit_set(b, 16) == break_flag,
    {
        let c: u8 = if self.carry { 1 } else { 0 };
        let z: u8 = if self.zero { 1 } else { 0 };
        let i: u8 = if self.interrupt_disable { 1 } else { 0 };
        let d: u8 = if self.decimal { 1 } else { 0 };
        let brk: u8 = if break_flag { 1 } else { 0 };
        let v: u8 = if self.overflow { 1 } else { 0 };
        let n: u8 = if self.negative { 1 } else { 0 };
        let b: u8 = c | z << 1 | i << 2 | d << 3 | brk << 4 | 1 << 5 | v << 6 | n << 7;
        assert(b == c + 2 * z + 4 * i + 8 * d + 16 * brk + 32 + 64 * v + 128 * n) by (bit_vector)
            requires
                c <= 1,
                z <= 1,
                i <= 1,
                d <= 1,
                brk <= 1,
                v <= 1,
                n <= 1,
                b == c | z << 1 | i << 2 | d << 3 | brk << 4 | 1u8 << 5u8 | v << 6 | n << 7,
        ;
        assert((b / 32) % 2 == 1 && (b / 16) % 2 == brk) by (bit_vector)
            requires
                c <= 1,
                z <= 1,
                i <= 1,
                d <= 1,
                brk <= 1,
                v <= 1,
                n <= 1,
                b == c + 2 * z + 4 * i + 8 * d + 16 * brk + 32 + 64 * v + 128 * n,
        ;
        b
    }

    /// Unpack from the on-stack byte layout, ignoring bits 4 and 5.
    pub fn from_byte(b: u8) -> (s: Self)
        ensures
            s == status_of(b),
    {
        assert(((b & 1u8) != 0) == ((b / 1) % 2 == 1)) by (bit_vector);
        assert(((b & 1u8 << 1u8) != 0) == ((b / 2) % 2 == 1)) by (bit_vector);
        assert(((b & 1u8 << 2u8) != 0) == ((b / 4) % 2 == 1)) by (bit_vector);
        assert(((b & 1u8 << 3u8) != 0) == ((b / 8) % 2 == 1)) by (bit_vector);
        assert(((b & 1u8 << 6u8) != 0) == ((b / 64) % 2 == 1)) by (bit_vector);
        assert(((b & 1u8 << 7u8) != 0) == ((b / 128) % 2 == 1)) by (bit_vector);
        Self {
            carry: b & 1 != 0,
            zero: b & 1 << 1 != 0,
            interrupt_disable: b & 1 << 2 != 0,
            decimal: b & 1 << 3 != 0,
            overflow: b & 1 << 6 != 0,
            negative: b & 1 << 7 != 0,
        }
    }
}

/// The break bit: `16` when set, `0` when clear.
pub open spec fn break_bit(break_flag: bool) -> u8 {
    if break_flag { 16 } else { 0 }
}

/// Unpacking a packed status gives back the flags it was packed from,
/// whatever the break flag was.
pub proof fn lemma_status_round_trip(s: Status, break_flag: bool)
    ensures
        status_of(status_byte(s, break_flag)) == s,
{
    let c: u8 = flag(s.carry) as u8;
    let z: u8 = flag(s.zero) as u8;
    let i: u8 = flag(s.interrupt_disable) as u8;
    let d: u8 = flag(s.decimal) as u8;
    let brk: u8 = flag(break_flag) as u8;
    let v: u8 = flag(s.overflow) as u8;
    let n: u8 = flag(s.negative) as u8;
    let b: u8 = status_byte(s, break_flag);
    assert(b == c + 2 * z + 4 * i + 8 * d + 16 * brk + 32 + 64 * v + 128 * n);
    assert({
        &&& (b / 1) % 2 == c
        &&& (b / 2) % 2 == z
        &&& (b / 4) % 2 == i
        &&& (b / 8) % 2 == d
        &&& (b / 64) % 2 == v
        &&& (b / 128) % 2 == n
    }) by (bit_vector)
        requires
            c <= 1,
            z <= 1,
            i <= 1,
            d <= 1,
            brk <= 1,
            v <= 1,
            n <= 1,
            b == c + 2 * z + 4 * i + 8 * d + 16 * brk + 32 + 64 * v + 128 * n,
    ;
}

/// Each flag sits at its own fixed bit of the packed status byte, whatever
/// the other flags are: C at bit 0, Z at bit 1, I at bit 2, D at bit 3, the
/// break flag at bit 4, a set bit 5, V at bit 6 and N at bit 7.
pub proof fn lemma_status_byte_bits(s: Status, break_flag: bool)
    ensures
        bit_set(status_byte(s, break_flag), 1) == s.carry,
        bit_set(status_byte(s, break_flag), 2) == s.zero,
        bit_set(status_byte(s, break_flag), 4) == s.interrupt_disable,
        bit_set(status_byte(s, break_flag), 8) == s.decimal,
        bit_set(status_byte(s, break_flag), 16) == break_flag,
        bit_set(status_byte(s, break_flag), 32),
        bit_set(status_byte(s, break_flag), 64) == s.overflow,
        bit_set(status_byte(s, break_flag), 128) == s.negative,
{
    let c: u8 = flag(s.carry) as u8;
    let z: u8 = flag(s.zero) as u8;
    let i: u8 = flag(s.interrupt_disable) as u8;
    let d: u8 = flag(s.decimal) as u8;
    let brk: u8 = flag(break_flag) as u8;
    let v: u8 = flag(s.overflow) as u8;
    let n: u8 = flag(s.negative) as u8;
    let b: u8 = status_byte(s, break_flag);
    assert(b == c + 2 * z + 4 * i + 8 * d + 16 * brk + 32 + 64 * v + 128 * n);
    assert({
        &&& (b / 1) % 2 == c
        &&& (b / 2) % 2 == z
        &&& (b / 4) % 2 == i
        &&& (b / 8) % 2 == d
        &&& (b / 16) % 2 == brk
        &&& (b / 32) % 2 == 1
        &&& (b / 64) % 2 == v
        &&& (b / 128) % 2 == n
    }) by (bit_vector)
        requires
            c <= 1,
            z <= 1,
            i <= 1,
            d <= 1,
            brk <= 1,
            v <= 1,
            n <= 1,
            b == c + 2 * z + 4 * i + 8 * d + 16 * brk + 32 + 64 * v + 128 * n,
    ;
}

/// Unpacking reads each flag from its own fixed bit: C from bit 0, Z from
/// bit 1, I from bit 2, D from bit 3, V from bit 6 and N from bit 7.
pub proof fn lemma_unpacked_bits(b: u8)
    ensures
        status_of(b).carry == bit_set(b, 1),
        status_of(b).zero == bit_set(b, 2),
        status_of(b).interrupt_disable == bit_set(b, 4),
        status_of(b).decimal == bit_set(b, 8),
        status_of(b).overflow == bit_set(b, 64),
        status_of(b).negative == bit_set(b, 128),
{
}

/// Unpacking ignores bits 4 and 5: bytes that differ only there give the
/// same flags.
pub proof fn lemma_status_ignores_unstored_bits(b: u8)
    ensures
        status_of(b) == status_of(b & 0xCF),
{
    let m: u8 = b & 0xCF;
    assert({
        &&& (b / 1) % 2 == (m / 1) % 2
        &&& (b / 2) % 2 == (m / 2) % 2
        &&& (b / 4) % 2 == (m / 4) % 2
        &&& (b / 8) % 2 == (m / 8) % 2
        &&& (b / 64) % 2 == (m / 64) % 2
        &&& (b / 128) % 2 == (m / 128) % 2
    }) by (bit_vector)
        requires
            m == b & 0xCF,
    ;
}

/// Packing the flags unpacked from a status byte gives that byte back with
/// bit 5 set and bit 4 replaced by the break flag: no stored flag is lost.
pub proof fn lemma_status_byte_of_unpacked(b: u8, break_flag: bool)
    ensures
        status_byte(status_of(b), break_flag) == (b & 0xCF) | 0x20 | break_bit(break_flag),
{
    let k: u8 = break_bit(break_flag);
    let r: u8 = status_byte(status_of(b), break_flag);
    assert(r == (b / 1) % 2 + 2 * ((b / 2) % 2) + 4 * ((b / 4) % 2) + 8 * ((b / 8) % 2) + k + 32 + 64
        * ((b / 64) % 2) + 128 * ((b / 128) % 2));
    assert(r == (b & 0xCF) | 0x20 | k) by (bit_vector)
        requires
            k == 0 || k == 16,
            r == (b / 1) % 2 + 2 * ((b / 2) % 2) + 4 * ((b / 4) % 2) + 8 * ((b / 8) % 2) + k + 32
                + 64 * ((b / 64) % 2) + 128 * ((b / 128) % 2),
    ;
}

/// The NMI edge detector: the NMI line level it saw at the last step or
/// reset. Only the core updates it.
#[derive(Debug, Clone, Copy)]
pub struct NmiEdge {
    seen: bool,
}

impl NmiEdge {
    /// The NMI line level the detector saw last.
    pub closed spec fn seen(self) -> bool {
        self.seen
    }

    /// The detector after it has seen the line level `level`.
    pub closed spec fn after(level: bool) -> NmiEdge {
        NmiEdge { seen: level }
    }

    /// Record the line level `level`.
    fn sample(level: bool) -> (e: NmiEdge)
        ensures
            e == NmiEdge::after(level),
    {
        NmiEdge { seen: level }
    }

    /// The NMI line level seen last.
    pub fn level(&self) -> (b: bool)
        ensures
            b == self.seen(),
    {
        self.seen
    }
}

/// A detector that has seen `level` reports `level`.
pub proof fn lemma_nmi_edge_after(level: bool)
    ensures
        NmiEdge::after(level).seen() == level,
{
}

/// A 6502 core.
///
/// Interrupt inputs are plain fields the surrounding machine drives:
/// * `irq`: level-sensitive. Set it while any device is asserting; the core
///   takes the interrupt whenever `interrupt_disable` is clear.
/// * `nmi`: treated as a line level (`true` = asserted). The core services it
///   on the `false` to `true` transition only.
/// * `reset_pending`: request reset processing on the next [`step`](Cpu::step).
#[derive(Debug, Clone)]
pub struct Cpu {
    pub a: u8,
    pub x: u8,
    pub y: u8,
    /// Stack pointer (offset into page 1).
    pub s: u8,
    pub pc: u16,
    pub status: Status,
    /// Total elapsed CPU cycles since power-on.
    pub cycles: u64,
    pub irq: bool,
    pub nmi: bool,
    /// The NMI edge detector, maintained by the core; the machine drives `nmi`
    /// only. Its level cannot be set from outside the core.
    pub nmi_edge: NmiEdge,
    pub reset_pending: bool,
    /// Set when a `BRK` has executed.
    pub brk_trapped: bool,
    /// Number of fetched opcodes that the decoder does not know.
    pub unknown_opcodes: u64,
}

/// The power-on state: registers zeroed, stack pointer parked at `$FD`, no
/// flag set, no line asserted or seen asserted, and no cycle elapsed.
pub open spec fn power_on_state() -> Cpu {
    Cpu {
        a: 0,
        x: 0,
        y: 0,
        s: 0xFD,
        pc: 0,
        status: clear_status(),
        cycles: 0,
        irq: false,
        nmi: false,
        nmi_edge: NmiEdge::after(false),
        reset_pending: false,
        brk_trapped: false,
        unknown_opcodes: 0,
    }
}

/// `a + k`, wrapping within the 16-bit address space.
pub open spec fn add_addr(a: u16, k: int) -> u16 {
    ((a + k) % 0x10000) as u16
}

/// The little-endian word made of `lo` and `hi`.
pub open spec fn word_of(lo: u8, hi: u8) -> u16 {
    (lo + 256 * hi) as u16
}

/// Number of bytes of the instruction that starts with `opcode`: the opcode
/// itself and, for a wired opcode, its operand bytes.
pub open spec fn instruction_len(opcode: u8) -> nat {
    match decode_table(opcode) {
        Some(ins) => (1 + operand_len_spec(ins.mode)) as nat,
        None => 1,
    }
}

/// The interrupt or reset that the next step services in state `c`, if any:
/// a pending reset first, then a rising NMI edge, then an unmasked IRQ.
pub open spec fn pending_interrupt(c: Cpu) -> Option<Interrupt> {
    if c.reset_pending {
        Some(Interrupt::Reset)
    } else if c.nmi && !c.nmi_edge.seen() {
        Some(Interrupt::Nmi)
    } else if c.irq && !c.status.interrupt_disable {
        Some(Interrupt::Irq)
    } else {
        None
    }
}

/// The effect of executing `ins` with operand word `operand`, once the PC has
/// moved past the instruction: the new state and the cycles charged.
pub open spec fn execute_spec(c: Cpu, ins: Decoded, operand: u16) -> (Cpu, u8) {
    let m = ins.mnemonic;
    (
        Cpu {
            pc: if m == Mnemonic::Jmp && ins.mode == AddrMode::Absolute {
                operand
            } else {
                c.pc
            },
            status: Status {
                interrupt_disable: if m == Mnemonic::Sei {
                    true
                } else if m == Mnemonic::Cli {
                    false
                } else {
                    c.status.interrupt_disable
                },
                carry: if m == Mnemonic::Sec {
                    true
                } else if m == Mnemonic::Clc {
                    false
                } else {
                    c.status.carry
                },
                ..c.status
            },
            brk_trapped: c.brk_trapped || m == Mnemonic::Brk,
            cycles: (c.cycles + ins.base_cycles) as u64,
            ..c
        },
        ins.base_cycles,
    )
}

/// The operand word of an instruction with `n` operand bytes `lo`, `hi`;
/// bytes beyond the `n`th count as 0.
pub open spec fn operand_word(lo: u8, hi: u8, n: u8) -> u16 {
    word_of(if n >= 1 { lo } else { 0 }, if n >= 2 { hi } else { 0 })
}

/// The reads of the `n` operand bytes `lo`, `hi` that follow an opcode, the
/// first at `addr` and the next at the address after it.
pub open spec fn operand_reads(addr: u16, lo: u8, hi: u8, n: u8) -> Seq<BusEvent> {
    seq![
        BusEvent::Read { addr, value: lo },
        BusEvent::Read { addr: add_addr(addr, 1), value: hi },
    ].subrange(0, n as int)
}

/// `bytes` has the shape of what one step from state `c` reads from the bus:
/// the two bytes of an interrupt vector, or an opcode followed by its operand
/// bytes.
pub open spec fn step_reads(c: Cpu, bytes: Seq<u8>) -> bool {
    match pending_interrupt(c) {
        Some(k) => bytes.len() == 2,
        None => bytes.len() >= 1 && bytes.len() == instruction_len(bytes[0]),
    }
}

/// The bus accesses of one step from state `c` that read `bytes`: the low and
/// then the high byte of the vector of the interrupt taken, or the opcode at
/// `pc` and its operand bytes at the addresses that follow. Nothing is written.
pub open spec fn step_accesses(c: Cpu, bytes: Seq<u8>) -> Seq<BusEvent> {
    match pending_interrupt(c) {
        Some(k) => seq![
            BusEvent::Read { addr: vector_of(k), value: bytes[0] },
            BusEvent::Read { addr: next_addr(vector_of(k)), value: bytes[1] },
        ],
        None => Seq::new(
            bytes.len(),
            |i: int| BusEvent::Read { addr: add_addr(c.pc, i), value: bytes[i] },
        ),
    }
}

/// The operand word of an instruction with `n` operand bytes that follow the
/// opcode in `bytes` (low byte first); 0 for absent bytes.
pub open spec fn operand_of(bytes: Seq<u8>, n: u8) -> u16 {
    operand_word(if n >= 1 { bytes[1] } else { 0 }, if n >= 2 { bytes[2] } else { 0 }, n)
}

/// The state after one step from `c` and the cycles it charged, given the
/// bytes that the step read from the bus, in order: the vector through which
/// an interrupt is entered (low byte first), or the opcode at `pc` and its
/// operand bytes.
pub open spec fn step_spec(c: Cpu, bytes: Seq<u8>) -> (Cpu, u8) {
    let c1 = Cpu { nmi_edge: NmiEdge::after(c.nmi), reset_pending: false, ..c };
    match pending_interrupt(c) {
        Some(k) => (interrupt_entry(k, c1, word_of(bytes[0], bytes[1])), 7),
        None => {
            let opcode = bytes[0];
            match decode_table(opcode) {
                None => (
                    Cpu {
                        pc: add_addr(c.pc, 1),
                        cycles: (c.cycles + 2) as u64,
                        unknown_opcodes: (c.unknown_opcodes + 1) as u64,
                        ..c1
                    },
                    2,
                ),
                Some(ins) => {
                    let n = operand_len_spec(ins.mode);
                    execute_spec(Cpu { pc: add_addr(c.pc, 1 + n), ..c1 }, ins, operand_of(bytes, n))
                },
            }
        },
    }
}

/// What one step from `c` does, given that it read `bytes`: the bytes have the
/// shape of a step's reads, the new state is `after` and `cycles` were
/// charged, and on a bus that records its accesses the record grew from
/// `before` to `now` by exactly the step's reads.
pub open spec fn step_done<B: Bus>(
    c: Cpu,
    bytes: Seq<u8>,
    after: Cpu,
    cycles: u8,
    before: Seq<BusEvent>,
    now: Seq<BusEvent>,
) -> bool {
    &&& step_reads(c, bytes)
    &&& (after, cycles) == step_spec(c, bytes)
    &&& B::records_history() ==> now == before + step_accesses(c, bytes)
}

/// The bytes that an interrupt step read, whose word is `target`: those that
/// the bus record shows, where the bus keeps one.
proof fn interrupt_bytes<B: Bus>(
    before: Seq<BusEvent>,
    now: Seq<BusEvent>,
    addr: u16,
    target: u16,
) -> (bytes: Seq<u8>)
    requires
        B::records_history() ==> word_read(before, now, addr, target),
    ensures
        bytes.len() == 2,
        word_of(bytes[0], bytes[1]) == target,
        B::records_history() ==> now == before + seq![
            BusEvent::Read { addr, value: bytes[0] },
            BusEvent::Read { addr: next_addr(addr), value: bytes[1] },
        ],
{
    if B::records_history() {
        let (lo, hi) = choose|lo: u8, hi: u8|
            {
                &&& now == before.push(BusEvent::Read { addr, value: lo }).push(
                    BusEvent::Read { addr: next_addr(addr), value: hi },
                )
                &&& target == #[trigger] (lo + 256 * hi)
            };
        assert(now =~= before + seq![
            BusEvent::Read { addr, value: lo },
            BusEvent::Read { addr: next_addr(addr), value: hi },
        ]);
        seq![lo, hi]
    } else {
        seq![(target % 256) as u8, (target / 256) as u8]
    }
}

impl Cpu {
    /// Power-on state. Registers are zeroed and the stack pointer parked at
    /// `$FD`; call [`reset`](Cpu::reset) to load `PC` from the reset vector.
    pub fn new() -> (c: Self)
        ensures
            c == power_on_state(),
    {
        Self {
            a: 0,
            x: 0,
            y: 0,
            s: 0xFD,
            pc: 0,
            status: Status::default(),
            cycles: 0,
            irq: false,
            nmi: false,
            nmi_edge: NmiEdge::sample(false),
            reset_pending: false,
            brk_trapped: false,
            unknown_opcodes: 0,
        }
    }

    /// Run the reset sequence now: `SP = $FD`, `I = 1`, `PC = [$FFFC]`,
    /// 7 cycles. On a bus that records its accesses, the reset reads `$FFFC`
    /// and then `$FFFD`, and nothing else.
    pub fn reset<B: Bus>(&mut self, bus: &mut B)
        requires
            old(self).cycles + 7 <= u64::MAX,
        ensures
            *final(self) == reset_entry(*old(self), final(self).pc),
            B::records_history() ==> word_read(
                old(bus).history(),
                final(bus).history(),
                RESET_VECTOR,
                final(self).pc,
            ),
    {
        self.service_reset(bus);
    }

    /// Execute one instruction (or take a pending reset, NMI or IRQ) and return
    /// the number of cycles it consumed.
    ///
    /// Whatever bytes the bus answers, the new state and the cycle count are
    /// those that [`step_spec`] gives for them; on a bus that records its
    /// accesses, those bytes are the ones it answered to the step's reads
    /// (see [`step_accesses`]), and the step writes nothing.
    pub fn step<B: Bus>(&mut self, bus: &mut B) -> (cycles: u8)
        requires
            old(self).cycles + 7 <= u64::MAX,
            old(self).unknown_opcodes < u64::MAX,
        ensures
            exists|bytes: Seq<u8>|
                #[trigger] step_done::<B>(
                    *old(self),
                    bytes,
                    *final(self),
                    cycles,
                    old(bus).history(),
                    final(bus).history(),
                ),
    {
        let ghost c0 = *self;
        let ghost h0 = bus.history();
        if self.reset_pending {
            self.reset_pending = false;
            let cycles = self.service_reset(bus);
            proof {
                let bytes = interrupt_bytes::<B>(h0, bus.history(), RESET_VECTOR, self.pc);
                assert(step_done::<B>(c0, bytes, *self, cycles, h0, bus.history()));
            }
            return cycles;
        }
        let nmi_edge = self.nmi && !self.nmi_edge.level();
        self.nmi_edge = NmiEdge::sample(self.nmi);
        if nmi_edge {
            let cycles = self.service_nmi(bus);
            proof {
                let bytes = interrupt_bytes::<B>(h0, bus.history(), vector_of(Interrupt::Nmi), self.pc);
                assert(step_done::<B>(c0, bytes, *self, cycles, h0, bus.history()));
            }
            return cycles;
        }
        if self.irq && !self.status.interrupt_disable {
            let cycles = self.service_irq(bus);
            proof {
                let bytes = interrupt_bytes::<B>(h0, bus.history(), vector_of(Interrupt::Irq), self.pc);
                assert(step_done::<B>(c0, bytes, *self, cycles, h0, bus.history()));
            }
            return cycles;
        }

        let opcode = self.fetch_u8(bus);
        match decode(opcode) {
            Some(ins) => {
                proof {
                    lemma_base_cycles_bounded(opcode);
                }
                let ghost fetched = *self;
                let ghost h1 = bus.history();
                let cycles = self.execute(ins, bus);
                proof {
                    let n = operand_len_spec(ins.mode);
                    let (lo, hi) = choose|lo: u8, hi: u8|
                        {
                            &&& (*self, cycles) == execute_spec(
                                Cpu { pc: add_addr(fetched.pc, n as int), ..fetched },
                                ins,
                                #[trigger] operand_word(lo, hi, n),
                            )
                            &&& B::records_history() ==> bus.history() == h1 + operand_reads(
                                fetched.pc,
                                lo,
                                hi,
                                n,
                            )
                        };
                    assert(add_addr(fetched.pc, n as int) == add_addr(c0.pc, 1 + n));
                    let bytes = seq![opcode, lo, hi].subrange(0, 1 + n);
                    assert(operand_of(bytes, n) == operand_word(lo, hi, n));
                    if B::records_history() {
                        assert(add_addr(fetched.pc, 1) == add_addr(c0.pc, 2));
                        assert(bus.history() =~= h0 + step_accesses(c0, bytes));
                    }
                    assert(step_done::<B>(c0, bytes, *self, cycles, h0, bus.history()));
                }
                cycles
            },
            None => {
                self.unknown_opcodes += 1;
                self.cycles += 2;
                proof {
                    let bytes = seq![opcode];
                    if B::records_history() {
                        assert(bus.history() =~= h0 + step_accesses(c0, bytes));
                    }
                    assert(step_done::<B>(c0, bytes, *self, 2, h0, bus.history()));
                }
                2
            },
        }
    }

    fn fetch_u8<B: Bus>(&mut self, bus: &mut B) -> (v: u8)
        ensures
            *final(self) == (Cpu { pc: add_addr(old(self).pc, 1), ..*old(self) }),
            B::records_history() ==> final(bus).history() == old(bus).history().push(
                BusEvent::Read { addr: old(self).pc, value: v },
            ),
    {
        let v = bus.read_u8(self.pc);
        self.pc = self.pc.wrapping_add(1);
        v
    }

    fn execute<B: Bus>(&mut self, ins: Decoded, bus: &mut B) -> (cycles: u8)
        requires
            old(self).cycles + ins.base_cycles <= u64::MAX,
        ensures
            exists|lo: u8, hi: u8|
                {
                    &&& (*final(self), cycles) == execute_spec(
                        Cpu { pc: add_addr(old(self).pc, operand_len_spec(ins.mode) as int), ..*old(self) },
                        ins,
                        #[trigger] operand_word(lo, hi, operand_len_spec(ins.mode)),
                    )
                    &&& B::records_history() ==> final(bus).history() == old(bus).history()
                        + operand_reads(old(self).pc, lo, hi, operand_len_spec(ins.mode))
                },
    {
        let ghost c0 = *self;
        let ghost h0 = bus.history();
        // Consume the operand bytes so PC lands after the instruction;
        // effective-address resolution and most datapath logic are still to come.
        let n = ins.mode.operand_len();
        let mut lo: u8 = 0;
        let mut hi: u8 = 0;
        if n >= 1 {
            lo = self.fetch_u8(bus);
        }
        if n >= 2 {
            hi = self.fetch_u8(bus);
        }
        let operand16 = le_word(lo, hi);
        assert(self.pc == add_addr(c0.pc, n as int));
        proof {
            if B::records_history() {
                assert(bus.history() =~= h0 + operand_reads(c0.pc, lo, hi, n));
            }
        }
        let cycles = self.apply(ins, operand16);
        assert(operand16 == operand_word(lo, hi, n));
        cycles
    }

    /// Carry out `ins` with operand word `operand`; the PC has already moved
    /// past the instruction.
    fn apply(&mut self, ins: Decoded, operand: u16) -> (cycles: u8)
        requires
            old(self).cycles + ins.base_cycles <= u64::MAX,
        ensures
            (*final(self), cycles) == execute_spec(*old(self), ins, operand),
    {
        match ins.mnemonic {
            Mnemonic::Nop => {},
            Mnemonic::Jmp if matches!(ins.mode, AddrMode::Absolute) => {
                self.pc = operand;
            },
            Mnemonic::Sei => self.status.interrupt_disable = true,
            Mnemonic::Cli => self.status.interrupt_disable = false,
            Mnemonic::Sec => self.status.carry = true,
            Mnemonic::Clc => self.status.carry = false,
            Mnemonic::Brk => self.brk_trapped = true,
            _ => {  /* recognised, not yet implemented */ },
        }
        self.cycles += ins.base_cycles as u64;
        ins.base_cycles
    }
}

impl Default for Cpu {
    fn default() -> (c: Self)
        ensures
            c == power_on_state(),
    {
        Self::new()
    }
}

/// Cycle accounting: a step adds exactly the cycle count it returns to the
/// cycle counter, and that count is between 2 and 7.
pub proof fn lemma_step_counts_its_cycles(c: Cpu, ev: Seq<u8>)
    requires
        c.cycles + 7 <= u64::MAX,
        c.unknown_opcodes < u64::MAX,
        step_reads(c, ev),
    ensures
        step_spec(c, ev).0.cycles == c.cycles + step_spec(c, ev).1,
        2 <= step_spec(c, ev).1 <= 7,
{
    if pending_interrupt(c) is None {
        lemma_base_cycles_bounded(ev[0]);
    }
}

/// An NMI is taken once per rising edge: a step never changes the NMI line,
/// and right after any step no NMI is pending, so a line held high is not
/// serviced again. A step takes the NMI exactly when the line is newly high
/// and no reset is pending, and then loads `PC` from the NMI vector.
pub proof fn lemma_nmi_once_per_edge(c: Cpu, ev: Seq<u8>)
    requires
        step_reads(c, ev),
    ensures
        step_spec(c, ev).0.nmi == c.nmi,
        step_spec(c, ev).0.nmi_edge.seen() == c.nmi,
        pending_interrupt(step_spec(c, ev).0) != Some(Interrupt::Nmi),
        (pending_interrupt(c) == Some(Interrupt::Nmi)) == (c.nmi && !c.nmi_edge.seen()
            && !c.reset_pending),
        pending_interrupt(c) == Some(Interrupt::Nmi) ==> {
            &&& step_spec(c, ev).0.pc == word_of(ev[0], ev[1])
            &&& step_accesses(c, ev) == seq![
                BusEvent::Read { addr: NMI_VECTOR, value: ev[0] },
                BusEvent::Read { addr: 0xFFFB, value: ev[1] },
            ]
        },
{
    lemma_nmi_edge_after(c.nmi);
}

/// The IRQ line is masked by the interrupt-disable flag: with `I` set a step
/// never enters the IRQ handler; entering it reads the IRQ vector and sets `I`.
pub proof fn lemma_irq_masked(c: Cpu, ev: Seq<u8>)
    requires
        step_reads(c, ev),
    ensures
        c.status.interrupt_disable ==> pending_interrupt(c) != Some(Interrupt::Irq),
        pending_interrupt(c) == Some(Interrupt::Irq) ==> {
            &&& c.irq
            &&& step_spec(c, ev).0.status.interrupt_disable
            &&& step_spec(c, ev).0.pc == word_of(ev[0], ev[1])
            &&& step_accesses(c, ev) == seq![
                BusEvent::Read { addr: IRQ_VECTOR, value: ev[0] },
                BusEvent::Read { addr: 0xFFFF, value: ev[1] },
            ]
        },
{
}

/// A reset requested through `reset_pending` is done by the next step exactly
/// as [`Cpu::reset`] does it, reading the reset vector, and the request is
/// cleared; after any step no reset is pending.
pub proof fn lemma_pending_reset(c: Cpu, ev: Seq<u8>)
    requires
        step_reads(c, ev),
    ensures
        !step_spec(c, ev).0.reset_pending,
        c.reset_pending ==> {
            &&& pending_interrupt(c) == Some(Interrupt::Reset)
            &&& step_spec(c, ev) == (
            reset_entry(Cpu { reset_pending: false, ..c }, word_of(ev[0], ev[1])), 7u8)
            &&& step_accesses(c, ev) == seq![
                BusEvent::Read { addr: RESET_VECTOR, value: ev[0] },
                BusEvent::Read { addr: 0xFFFD, value: ev[1] },
            ]
        },
{
}

/// When a step runs an instruction it reads the instruction's bytes from
/// `PC` on and leaves `PC` just past them, unless the instruction is an
/// absolute `JMP`, which loads `PC` with the operand word it read.
pub proof fn lemma_step_advances_pc(c: Cpu, ev: Seq<u8>)
    requires
        step_reads(c, ev),
    ensures
        pending_interrupt(c) is None ==> {
            let opcode = ev[0];
            &&& forall|i: int|
                0 <= i < ev.len() ==> #[trigger] step_accesses(c, ev)[i] == (BusEvent::Read {
                    addr: add_addr(c.pc, i),
                    value: ev[i],
                })
            &&& if decode_table(opcode) == Some(
                Decoded { mnemonic: Mnemonic::Jmp, mode: AddrMode::Absolute, base_cycles: 3 },
            ) {
                step_spec(c, ev).0.pc == word_of(ev[1], ev[2])
            } else {
                step_spec(c, ev).0.pc == add_addr(c.pc, instruction_len(opcode) as int)
            }
        },
{
}

/// The step loop leaves the data registers alone: `A`, `X` and `Y` never
/// change, and the stack pointer changes only on reset.
pub proof fn lemma_step_keeps_registers(c: Cpu, ev: Seq<u8>)
    requires
        step_reads(c, ev),
    ensures
        step_spec(c, ev).0.a == c.a,
        step_spec(c, ev).0.x == c.x,
        step_spec(c, ev).0.y == c.y,
        pending_interrupt(c) != Some(Interrupt::Reset) ==> step_spec(c, ev).0.s == c.s,
{
}

/// Step priority, stated on the state's fields: a pending reset is done
/// first, reading the reset vector; otherwise a fresh rising NMI edge is
/// taken through the NMI vector; otherwise an asserted IRQ line with `I`
/// clear is taken through the IRQ vector, whatever the other flags are;
/// otherwise the opcode at `PC` is fetched. Each interrupt entry loads `PC`
/// with the vector's word, charges 7 cycles and changes no flag but `I`
/// (set by reset and IRQ entry).
pub proof fn lemma_step_priority(c: Cpu, b: Seq<u8>)
    requires
        c.cycles + 7 <= u64::MAX,
        step_reads(c, b),
    ensures
        c.reset_pending ==> {
            &&& step_spec(c, b).1 == 7
            &&& step_spec(c, b).0.pc == word_of(b[0], b[1])
            &&& step_spec(c, b).0.s == 0xFD
            &&& step_spec(c, b).0.status == (Status { interrupt_disable: true, ..c.status })
            &&& step_spec(c, b).0.cycles == c.cycles + 7
            &&& !step_spec(c, b).0.reset_pending
            &&& step_accesses(c, b) == seq![
                BusEvent::Read { addr: 0xFFFC, value: b[0] },
                BusEvent::Read { addr: 0xFFFD, value: b[1] },
            ]
        },
        !c.reset_pending && c.nmi && !c.nmi_edge.seen() ==> {
            &&& step_spec(c, b).1 == 7
            &&& step_spec(c, b).0.pc == word_of(b[0], b[1])
            &&& step_spec(c, b).0.s == c.s
            &&& step_spec(c, b).0.status == c.status
            &&& step_spec(c, b).0.cycles == c.cycles + 7
            &&& step_accesses(c, b) == seq![
                BusEvent::Read { addr: 0xFFFA, value: b[0] },
                BusEvent::Read { addr: 0xFFFB, value: b[1] },
            ]
        },
        !c.reset_pending && !(c.nmi && !c.nmi_edge.seen()) && c.irq
            && !c.status.interrupt_disable ==> {
            &&& step_spec(c, b).1 == 7
            &&& step_spec(c, b).0.pc == word_of(b[0], b[1])
            &&& step_spec(c, b).0.s == c.s
            &&& step_spec(c, b).0.status == (Status { interrupt_disable: true, ..c.status })
            &&& step_spec(c, b).0.cycles == c.cycles + 7
            &&& step_accesses(c, b) == seq![
                BusEvent::Read { addr: 0xFFFE, value: b[0] },
                BusEvent::Read { addr: 0xFFFF, value: b[1] },
            ]
        },
        !c.reset_pending && !(c.nmi && !c.nmi_edge.seen()) && !(c.irq
            && !c.status.interrupt_disable) ==> step_accesses(c, b)[0] == (BusEvent::Read {
            addr: c.pc,
            value: b[0],
        }),
{
}

/// An executed instruction changes only the flags its operation names:
/// `CLC`/`SEC` set the carry, `CLI`/`SEI` the interrupt-disable flag, and
/// every other opcode, wired or not, leaves the status flags as they were.
pub proof fn lemma_instruction_flags(c: Cpu, b: Seq<u8>)
    requires
        step_reads(c, b),
        !c.reset_pending,
        !(c.nmi && !c.nmi_edge.seen()),
        !(c.irq && !c.status.interrupt_disable),
    ensures
        ({
            let after = step_spec(c, b).0.status;
            match decode_table(b[0]) {
                Some(ins) => if ins.mnemonic == Mnemonic::Clc {
                    after == Status { carry: false, ..c.status }
                } else if ins.mnemonic == Mnemonic::Sec {
                    after == Status { carry: true, ..c.status }
                } else if ins.mnemonic == Mnemonic::Cli {
                    after == Status { interrupt_disable: false, ..c.status }
                } else if ins.mnemonic == Mnemonic::Sei {
                    after == Status { interrupt_disable: true, ..c.status }
                } else {
                    after == c.status
                },
                None => after == c.status,
            }
        }),
{
}

} // verus!
