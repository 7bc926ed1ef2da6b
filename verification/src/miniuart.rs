//! The mini-UART transceiver: byte-level polled send and receive over two
//! GPIO pins forced into the UART alternate function, framed 8 bits, 1 stop
//! bit, no parity, at a configured baud rate.

use vstd::prelude::*;

use crate::bus::{
    read_effect, read_result, write_effect, Bus, BusView, AUX_ENABLE, AUX_MU_BAUD, AUX_MU_CNTL,
    AUX_MU_IER, AUX_MU_IIR, AUX_MU_LCR, AUX_MU_MCR, REG_AUXEN, REG_BAUD, REG_CNTL, REG_IER,
    REG_LCR, REG_MCR,
};
use crate::gpio::{fsel_field, gpio_new_effect, GPIO, PinMode, PinState, Pull};
use crate::protocol::{
    can_rx, can_send_all, compute_divisor, data_write_values, data_writes_follow_ready, has_ready,
    lemma_can_send_prefix, rx_byte, rx_byte_effect, send_str_effect, spec_divisor, tx_byte,
    tx_byte_effect, LSR_TX_EMPTY, RX_PIN, SYSTEM_CLOCK_HZ, TX_PIN,
};

verus! {

/// The mini-UART transceiver: its configured baud rate and the two GPIO pins
/// it exclusively owns as transmit and receive lines.
pub struct Miniuart {
    pub baudrate: u32,
    pub rx: GPIO,
    pub tx: GPIO,
}

/// Bus state after constructing the transceiver: the auxiliary block
/// enabled by a read-modify-write of bit 0, interrupts off, transmit and
/// receive disabled for the reconfiguration, 8-bit line control, no
/// ready-to-send, FIFO state reset, the baud divisor programmed, both pins
/// multiplexed into the UART alternate function with no pull, transmit and
/// receive re-enabled, and both FIFOs cleared.
pub open spec fn miniuart_new_effect(v: BusView, baudrate: u32) -> BusView {
    let v1 = write_effect(read_effect(v, AUX_ENABLE), AUX_ENABLE, read_result(v, AUX_ENABLE) | 1);
    let v2 = write_effect(v1, AUX_MU_IER, 0);
    let v3 = write_effect(v2, AUX_MU_CNTL, 0);
    let v4 = write_effect(v3, AUX_MU_LCR, 3);
    let v5 = write_effect(v4, AUX_MU_MCR, 0);
    let v6 = write_effect(v5, AUX_MU_IIR, 0xC6);
    let v7 = write_effect(v6, AUX_MU_BAUD, spec_divisor(SYSTEM_CLOCK_HZ, baudrate));
    let v8 = gpio_new_effect(v7, TX_PIN, PinMode::AltFunc5, Pull::Neither);
    let v9 = gpio_new_effect(v8, RX_PIN, PinMode::AltFunc5, Pull::Neither);
    let v10 = write_effect(v9, AUX_MU_CNTL, 3);
    write_effect(v10, AUX_MU_IIR, 6)
}

impl Miniuart {
    /// Both owned pins carry hardware-valid indices.
    pub open spec fn wf(self) -> bool {
        self.tx.wf() && self.rx.wf()
    }

    /// Construct the transceiver at the given baud rate: enable the
    /// auxiliary block, quiesce the port, latch 8-bit framing and the
    /// divisor for the rate on the reference clock, claim the transmit and
    /// receive pins in the UART alternate function with no pull, then
    /// re-enable and clear the FIFOs. The rate must be positive and at most
    /// an eighth of the reference clock, so the divisor is well defined.
    pub fn new(bus: &mut Bus, baudrate: u32) -> (u: Miniuart)
        requires
            old(bus)@.wf(),
            0 < baudrate,
            8 * baudrate <= SYSTEM_CLOCK_HZ,
        ensures
            final(bus)@.wf(),
            u.wf(),
            u.baudrate == baudrate,
            u.tx.pin == TX_PIN,
            u.rx.pin == RX_PIN,
            u.tx.mode == PinMode::AltFunc5,
            u.rx.mode == PinMode::AltFunc5,
            u.tx.pull == Pull::Neither,
            u.rx.pull == Pull::Neither,
            u.tx.state == PinState::Off,
            u.rx.state == PinState::Off,
            final(bus)@ == miniuart_new_effect(old(bus)@, baudrate),
            final(bus)@.regs[REG_AUXEN as int] == old(bus)@.regs[REG_AUXEN as int] | 1,
            final(bus)@.regs[REG_AUXEN as int] & 1 == 1,
            final(bus)@.regs[REG_LCR as int] == 3,
            final(bus)@.regs[REG_BAUD as int] == spec_divisor(SYSTEM_CLOCK_HZ, baudrate),
            final(bus)@.regs[REG_CNTL as int] == 3,
            final(bus)@.regs[REG_IER as int] == 0,
            final(bus)@.regs[REG_MCR as int] == 0,
            fsel_field(final(bus)@, TX_PIN) == PinMode::AltFunc5.spec_code(),
            fsel_field(final(bus)@, RX_PIN) == PinMode::AltFunc5.spec_code(),
            final(bus)@.lsr == old(bus)@.lsr,
            final(bus)@.lsr_pos == old(bus)@.lsr_pos,
            final(bus)@.rx == old(bus)@.rx,
            final(bus)@.rx_pos == old(bus)@.rx_pos,
    {
        let ghost v0 = old(bus)@;
        let val = bus.read(AUX_ENABLE);
        bus.write(AUX_ENABLE, val | 1);
        bus.write(AUX_MU_IER, 0);
        bus.write(AUX_MU_CNTL, 0);
        bus.write(AUX_MU_LCR, 0b11);
        bus.write(AUX_MU_MCR, 0);
        bus.write(AUX_MU_IIR, 0xC6);
        let d = compute_divisor(SYSTEM_CLOCK_HZ, baudrate);
        bus.write(AUX_MU_BAUD, d);
        let tx = GPIO::new(bus, TX_PIN, PinMode::AltFunc5, Pull::Neither);
        let rx = GPIO::new(bus, RX_PIN, PinMode::AltFunc5, Pull::Neither);
        let u = Miniuart { baudrate, rx, tx };
        bus.write(AUX_MU_CNTL, 0b11);
        bus.write(AUX_MU_IIR, 0b110);
        proof {
            assert(bus@ =~= miniuart_new_effect(v0, baudrate));
            assert((val | 1) & 1 == 1) by (bit_vector);
        }
        u
    }

    /// Transmit one character: poll the line-status register until the
    /// transmitter-empty bit is delivered, then write the character's code
    /// point to the data register. The appended accesses hold exactly one
    /// data-register write, carrying the code point, and no data write comes
    /// before a poll has delivered the bit; with a status script that never
    /// delivers it, the physical loop blocks forever, so the script is
    /// required to deliver it eventually.
    pub fn sendc(&self, bus: &mut Bus, data: char)
        requires
            old(bus)@.wf(),
            has_ready(old(bus)@, LSR_TX_EMPTY),
        ensures
            final(bus)@.wf(),
            final(bus)@ == tx_byte_effect(old(bus)@, data as u32),
            final(bus)@.regs == old(bus)@.regs,
            data_write_values(final(bus)@.log.skip(old(bus)@.log.len() as int)) == seq![
                data as u32,
            ],
            data_writes_follow_ready(
                final(bus)@.log.skip(old(bus)@.log.len() as int),
                LSR_TX_EMPTY,
            ),
    {
        tx_byte(bus, data as u32);
    }

    /// Transmit every character of `data`, in order, with no line-ending
    /// translation. The status script must signal transmitter-empty often
    /// enough for the whole text.
    pub fn send_str(&self, bus: &mut Bus, data: &str)
        requires
            old(bus)@.wf(),
            can_send_all(old(bus)@, data@),
        ensures
            final(bus)@.wf(),
            final(bus)@ == send_str_effect(old(bus)@, data@),
            final(bus)@.regs == old(bus)@.regs,
    {
        let ghost v0 = old(bus)@;
        proof {
            assert(data@.take(0) =~= Seq::<char>::empty());
        }
        let n = data.unicode_len();
        let mut i: usize = 0;
        while i < n
            invariant
                bus@.wf(),
                n == data@.len(),
                i <= n,
                v0.wf(),
                can_send_all(v0, data@),
                bus@ == send_str_effect(v0, data@.take(i as int)),
            decreases n - i,
        {
            proof {
                lemma_can_send_prefix(v0, data@, i as int + 1);
                assert(can_send_all(v0, data@.take(i as int + 1)));
                assert(data@.take(i as int + 1).drop_last() =~= data@.take(i as int));
                assert(has_ready(bus@, LSR_TX_EMPTY));
            }
            let c = data.get_char(i);
            self.sendc(bus, c);
            proof {
                assert(data@.take(i as int + 1).last() == data@[i as int]);
                assert(bus@ == send_str_effect(v0, data@.take(i as int + 1)));
            }
            i = i + 1;
        }
        proof {
            assert(data@.take(n as int) =~= data@);
            crate::protocol::lemma_send_str_preserves_regs(v0, data@);
        }
    }

    /// Receive one character: poll the line-status register until the
    /// data-ready bit is delivered, then read the data register and return
    /// its low byte as a character. The script must eventually signal data
    /// ready and hold a byte to deliver; on the physical device the loop
    /// blocks until the hardware raises the bit.
    pub fn readc(&self, bus: &mut Bus) -> (r: char)
        requires
            old(bus)@.wf(),
            can_rx(old(bus)@),
        ensures
            final(bus)@.wf(),
            r == (old(bus)@.rx[old(bus)@.rx_pos] as u8) as char,
            final(bus)@ == rx_byte_effect(old(bus)@),
            final(bus)@.regs == old(bus)@.regs,
    {
        let v = rx_byte(bus);
        (v as u8) as char
    }
}

} // verus!
