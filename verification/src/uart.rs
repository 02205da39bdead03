use vstd::prelude::*;

verus! {

/// A 16550-compatible UART whose registers are mapped at `base_address`.
///
/// Register map (offsets from the base address):
/// * 0: with DLAB = 0 the transmit holding / receive buffer register,
///   with DLAB = 1 the divisor latch low byte (`DLL`);
/// * 1: with DLAB = 0 the interrupt enable register,
///   with DLAB = 1 the divisor latch high byte (`DLM`);
/// * 2: interrupt identification / FIFO control;
/// * 3: line control register (`LCR`): bit 7 DLAB, bit 6 SB, bit 5 EPS, bit 4 PEN,
///   bit 3 STB, bits 2..0 WLS;
/// * 4: modem control; 5: line status (`LSR`); 6: modem status; 7: scratch.
pub struct Uart {
    base_address: usize,
}

/// Receive buffer register (read).
pub const RBR: usize = 0x00;
/// Transmit holding register (write).
pub const TBR: usize = 0x00;
/// Divisor latch, low byte.
pub const DLL: usize = 0x00;
/// Divisor latch, high byte.
pub const DLM: usize = 0x01;
/// Line control register.
pub const LCR: usize = 0x03;
/// Line status register.
pub const LSR: usize = 0x05;

/// LCR bit 7: divisor latch access (set to change the baud rate divisor).
pub const LCR_DLAB: u8 = 0x80;
/// LCR word length: 8 data bits.
pub const LCR_DATA_8BIT: u8 = 0b11;
/// LCR stop bits: 1.
pub const LCR_STOP_1BIT: u8 = 0;
/// LCR parity: none.
pub const LCR_PARITY_NONE: u8 = 0;

/// LSR bit 0: received data is ready.
pub const LSR_DATA_READY: u8 = 0x01;
/// LSR bit 5: the transmit holding register is empty.
pub const LSR_TX_EMPTY: u8 = 0x20;

/// Input clock of the UART in Hz (QEMU's default, 18.432 MHz).
pub const UART_CLOCK_HZ: u32 = 18432000;
/// Baud rate the UART is set to.
pub const BAUD_RATE: u32 = 115200;
/// Baud rate divisor: clock / (16 * baud rate).
pub const DIVISOR: u16 = 10;

/// Bit `bit` of `value` is set.
pub open spec fn bit_set(value: u8, bit: nat) -> bool {
    (value as int / vstd::arithmetic::power2::pow2(bit) as int) % 2 == 1
}

impl Uart {
    /// The address the registers are mapped at.
    pub closed spec fn base_spec(self) -> usize {
        self.base_address
    }

    /// A UART whose registers are mapped at `base_address`.
    pub fn new(base_address: usize) -> (u: Self)
        ensures
            u.base_spec() == base_address,
    {
        Uart { base_address }
    }

    /// The address of the register at `offset`.
    pub fn register_address(&self, offset: usize) -> (r: usize)
        requires
            self.base_spec() + offset <= usize::MAX,
        ensures
            r == self.base_spec() + offset,
    {
        self.base_address + offset
    }

    /// The register writes that set the UART up, in order, given `lcr`, the value
    /// the line control register held: set DLAB, write the divisor for 115200 baud
    /// low byte then high byte, then set 8 data bits, 1 stop bit and no parity,
    /// which clears DLAB again.
    pub fn init_sequence(&self, lcr: u8) -> (w: Vec<(usize, u8)>)
        requires
            self.base_spec() + LCR <= usize::MAX,
        ensures
            w@ == seq![
                ((self.base_spec() + LCR) as usize, lcr | LCR_DLAB),
                ((self.base_spec() + DLL) as usize, 10u8),
                ((self.base_spec() + DLM) as usize, 0u8),
                ((self.base_spec() + LCR) as usize, 3u8),
            ],
            bit_set(w@[0].1, 7),
            !bit_set(w@[3].1, 7),
    {
        let mut w: Vec<(usize, u8)> = Vec::new();
        let base = self.base_address;
        w.push((base + LCR, lcr | LCR_DLAB));
        w.push((base + DLL, (DIVISOR & 0xFF) as u8));
        w.push((base + DLM, (DIVISOR >> 8) as u8));
        w.push((base + LCR, LCR_DATA_8BIT | LCR_STOP_1BIT | LCR_PARITY_NONE));
        proof {
            vstd::arithmetic::power2::lemma2_to64();
            assert((DIVISOR & 0xFF) as u8 == 10u8) by (bit_vector);
            assert((DIVISOR >> 8) as u8 == 0u8) by (bit_vector);
            assert(LCR_DATA_8BIT | LCR_STOP_1BIT | LCR_PARITY_NONE == 3u8) by (bit_vector);
            let v = lcr | LCR_DLAB;
            assert((v as int / 128) % 2 == 1) by (bit_vector)
                requires v == lcr | 0x80u8;
        }
        w
    }

    /// Whether a transmission may start, given the line status `lsr`: the transmit
    /// holding register is empty (bit 5).
    pub fn tx_ready(lsr: u8) -> (r: bool)
        ensures
            r == bit_set(lsr, 5),
    {
        proof {
            vstd::arithmetic::power2::lemma2_to64();
            assert((lsr & LSR_TX_EMPTY != 0) == ((lsr as int / 32) % 2 == 1)) by (bit_vector);
        }
        lsr & LSR_TX_EMPTY != 0
    }

    /// Whether received data is waiting, given the line status `lsr` (bit 0).
    pub fn rx_ready(lsr: u8) -> (r: bool)
        ensures
            r == bit_set(lsr, 0),
    {
        proof {
            vstd::arithmetic::power2::lemma2_to64();
            assert((lsr & LSR_DATA_READY != 0) == ((lsr as int / 1) % 2 == 1)) by (bit_vector);
        }
        lsr & LSR_DATA_READY != 0
    }
}

/// The divisor gives 115200 baud from QEMU's 18.432 MHz UART clock.
pub proof fn law_divisor_matches_baud_rate()
    ensures
        DIVISOR as int == (UART_CLOCK_HZ as int) / (16 * BAUD_RATE as int),
{
    vstd::arithmetic::div_mod::lemma_fundamental_div_mod_converse(18432000, 1843200, 10, 0);
}

} // verus!
