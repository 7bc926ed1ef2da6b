//! A leaner mini-UART front end: the same polled transceiver as
//! [`crate::miniuart`], set up with the shorter configuration sequence that
//! leaves the interrupt-enable and modem-control registers at their reset
//! state.

use vstd::prelude::*;

use crate::bus::{
    read_effect, read_result, write_effect, Bus, BusView, AUX_ENABLE, AUX_MU_BAUD, AUX_MU_CNTL,
    AUX_MU_IIR, AUX_MU_LCR, REG_AUXEN, REG_BAUD, REG_CNTL, REG_LCR,
};
use crate::gpio::{fsel_field, gpio_new_effect, GPIO, PinMode, PinState, Pull};
use crate::protocol::{
    can_rx, compute_divisor, data_write_values, data_writes_follow_ready, has_ready, rx_byte,
    rx_byte_effect, spec_divisor, tx_byte, tx_byte_effect, LSR_TX_EMPTY, RX_PIN, SYSTEM_CLOCK_HZ,
    TX_PIN,
};

verus! {

/// The transceiver: its configured baud rate and the two GPIO pins it
/// exclusively owns as transmit and receive lines.
pub struct UART {
    pub baudrate: u32,
    pub rx: GPIO,
    pub tx: GPIO,
}

/// Bus state after constructing the transceiver: the auxiliary block enabled
/// by a read-modify-write of bit 0, transmit and receive disabled for the
/// reconfiguration, 8-bit line control, the baud divisor programmed, both
/// pins multiplexed into the UART alternate function with no pull, transmit
/// and receive re-enabled, and both FIFOs cleared.
pub open spec fn uart_new_effect(v: BusView, baudrate: u32) -> BusView {
    let v1 = write_effect(read_effect(v, AUX_ENABLE), AUX_ENABLE, read_result(v, AUX_ENABLE) | 1);
    let v2 = write_effect(v1, AUX_MU_CNTL, 0);
    let v3 = write_effect(v2, AUX_MU_LCR, 3);
    let v4 = write_effect(v3, AUX_MU_BAUD, spec_divisor(SYSTEM_CLOCK_HZ, baudrate));
    let v5 = gpio_new_effect(v4, TX_PIN, PinMode::AltFunc5, Pull::Neither);
    let v6 = gpio_new_effect(v5, RX_PIN, PinMode::AltFunc5, Pull::Neither);
    let v7 = write_effect(v6, AUX_MU_CNTL, 3);
    write_effect(v7, AUX_MU_IIR, 6)
}

impl UART {
    /// Both owned pins carry hardware-valid indices.
    pub open spec fn wf(self) -> bool {
        self.tx.wf() && self.rx.wf()
    }

    /// Construct the transceiver at the given baud rate: enable the
    /// auxiliary block, disable transmit and receive for the
    /// reconfiguration, latch 8-bit framing and the divisor for the rate on
    /// the reference clock, claim the transmit and receive pins in the UART
    /// alternate function with no pull, re-enable, and clear both FIFOs.
    /// The rate must be positive and at most an eighth of the reference
    /// clock, so the divisor is well defined.
    pub fn new(bus: &mut Bus, baudrate: u32) -> (u: UART)
        requires
            old(bus)@.wf(),
            0 < baudrate,
            8 * baudrate <= SYSTEM_CLOCK_HZ,
        ensures
            final(bus)@.wf(),
            u.wf(),
            u.baudrate == baudrate,
            u.tx.pin == TX_PIN,
            u.rx.pin == RX_PIN,
            u.tx.mode == PinMode::AltFunc5,
            u.rx.mode == PinMode::AltFunc5,
            u.tx.pull == Pull::Neither,
            u.rx.pull == Pull::Neither,
            u.tx.state == PinState::Off,
            u.rx.state == PinState::Off,
            final(bus)@ == uart_new_effect(old(bus)@, baudrate),
            final(bus)@.regs[REG_AUXEN as int] == old(bus)@.regs[REG_AUXEN as int] | 1,
            final(bus)@.regs[REG_AUXEN as int] & 1 == 1,
            final(bus)@.regs[REG_LCR as int] == 3,
            final(bus)@.regs[REG_BAUD as int] == spec_divisor(SYSTEM_CLOCK_HZ, baudrate),
            final(bus)@.regs[REG_CNTL as int] == 3,
            fsel_field(final(bus)@, TX_PIN) == PinMode::AltFunc5.spec_code(),
            fsel_field(final(bus)@, RX_PIN) == PinMode::AltFunc5.spec_code(),
            final(bus)@.lsr == old(bus)@.lsr,
            final(bus)@.lsr_pos == old(bus)@.lsr_pos,
            final(bus)@.rx == old(bus)@.rx,
            final(bus)@.rx_pos == old(bus)@.rx_pos,
    {
        let ghost v0 = old(bus)@;
        let val = bus.read(AUX_ENABLE);
        bus.write(AUX_ENABLE, val | 1);
        bus.write(AUX_MU_CNTL, 0);
        bus.write(AUX_MU_LCR, 0b11);
        let d = compute_divisor(SYSTEM_CLOCK_HZ, baudrate);
        bus.write(AUX_MU_BAUD, d);
        let tx = GPIO::new(bus, TX_PIN, PinMode::AltFunc5, Pull::Neither);
        let rx = GPIO::new(bus, RX_PIN, PinMode::AltFunc5, Pull::Neither);
        let u = UART { baudrate, rx, tx };
        bus.write(AUX_MU_CNTL, 0b11);
        bus.write(AUX_MU_IIR, 0b110);
        proof {
            assert(bus@ =~= uart_new_effect(v0, baudrate));
            assert((val | 1) & 1 == 1) by (bit_vector);
        }
        u
    }

    /// Transmit one character: poll the line-status register until the
    /// transmitter-empty bit is delivered, then write the character's code
    /// point to the data register. The appended accesses hold exactly one
    /// data-register write, carrying the code point, and no data write comes
    /// before a poll has delivered the bit.
    pub fn send(&self, bus: &mut Bus, data: char)
        requires
            old(bus)@.wf(),
            has_ready(old(bus)@, LSR_TX_EMPTY),
        ensures
            final(bus)@.wf(),
            final(bus)@ == tx_byte_effect(old(bus)@, data as u32),
            final(bus)@.regs == old(bus)@.regs,
            data_write_values(final(bus)@.log.skip(old(bus)@.log.len() as int)) == seq![
                data as u32,
            ],
            data_writes_follow_ready(
                final(bus)@.log.skip(old(bus)@.log.len() as int),
                LSR_TX_EMPTY,
            ),
    {
        tx_byte(bus, data as u32);
    }

    /// Receive one character: poll the line-status register until the
    /// data-ready bit is delivered, then read the data register and return
    /// its low byte as a character.
    pub fn read(&self, bus: &mut Bus) -> (r: char)
        requires
            old(bus)@.wf(),
            can_rx(old(bus)@),
        ensures
            final(bus)@.wf(),
            r == (old(bus)@.rx[old(bus)@.rx_pos] as u8) as char,
            final(bus)@ == rx_byte_effect(old(bus)@),
            final(bus)@.regs == old(bus)@.regs,
    {
        let v = rx_byte(bus);
        (v as u8) as char
    }
}

} // verus!
