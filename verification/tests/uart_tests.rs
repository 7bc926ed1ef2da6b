use bmrp::bus::{
    Bus, Event, AUX_ENABLE, AUX_MU_BAUD, AUX_MU_CNTL, AUX_MU_IER, AUX_MU_IIR, AUX_MU_IO,
    AUX_MU_LCR, AUX_MU_LSR, AUX_MU_MCR, GPFSEL0,
};
use bmrp::miniuart::Miniuart;
use bmrp::protocol::{compute_divisor, LSR_RX_READY, LSR_TX_EMPTY, SYSTEM_CLOCK_HZ};
use bmrp::uart::UART;

#[test]
fn divisor_at_documented_clock_and_rate() {
    assert_eq!(compute_divisor(250_000_000, 115200), 270);
    assert_eq!(compute_divisor(SYSTEM_CLOCK_HZ, 115200), 270);
}

#[test]
fn divisor_general_values() {
    // 250 MHz / (8 * 9600) = 3255 (integer division), minus one.
    assert_eq!(compute_divisor(250_000_000, 9600), 3254);
    // A rate of exactly an eighth of the clock gives divisor zero.
    assert_eq!(compute_divisor(80, 10), 0);
}

#[test]
fn miniuart_new_programs_framing_and_divisor() {
    let mut bus = Bus::new();
    let u = Miniuart::new(&mut bus, 115200);
    assert_eq!(u.baudrate, 115200);
    assert_eq!(u.tx.pin, 14);
    assert_eq!(u.rx.pin, 15);
    // Auxiliary block on, interrupts off, 8-bit mode, no RTS, transceiver
    // re-enabled, divisor for 115200 at the 250 MHz reference clock.
    assert_eq!(bus.peek(AUX_ENABLE), 1);
    assert_eq!(bus.peek(AUX_MU_IER), 0);
    assert_eq!(bus.peek(AUX_MU_LCR), 0b11);
    assert_eq!(bus.peek(AUX_MU_MCR), 0);
    assert_eq!(bus.peek(AUX_MU_CNTL), 0b11);
    assert_eq!(bus.peek(AUX_MU_BAUD), 270);
    // Pins 14 and 15 are in alternate function 5 (code 2), fields 4 and 5 of
    // function-select register 1.
    assert_eq!(bus.peek(GPFSEL0 + 4), (2 << 12) | (2 << 15));
    // The setup starts by enabling the block and quiescing the port.
    assert_eq!(bus.event_at(0), Event::Read(AUX_ENABLE, 0));
    assert_eq!(bus.event_at(1), Event::Write(AUX_ENABLE, 1));
    assert_eq!(bus.event_at(2), Event::Write(AUX_MU_IER, 0));
    assert_eq!(bus.event_at(3), Event::Write(AUX_MU_CNTL, 0));
    assert_eq!(bus.event_at(4), Event::Write(AUX_MU_LCR, 0b11));
    assert_eq!(bus.event_at(5), Event::Write(AUX_MU_MCR, 0));
    assert_eq!(bus.event_at(6), Event::Write(AUX_MU_IIR, 0xC6));
    assert_eq!(bus.event_at(7), Event::Write(AUX_MU_BAUD, 270));
    // ... and ends by re-enabling and clearing both FIFOs.
    let n = bus.event_count();
    assert_eq!(bus.event_at(n - 2), Event::Write(AUX_MU_CNTL, 0b11));
    assert_eq!(bus.event_at(n - 1), Event::Write(AUX_MU_IIR, 0b110));
}

#[test]
fn miniuart_enable_preserves_other_peripherals() {
    let mut bus = Bus::new();
    // Another peripheral's enable bits are already set.
    bus.write(AUX_ENABLE, 0b110);
    let _u = Miniuart::new(&mut bus, 115200);
    assert_eq!(bus.peek(AUX_ENABLE), 0b111);
}

#[test]
fn sendc_waits_for_tx_empty_before_data_write() {
    let mut bus = Bus::new();
    let u = Miniuart::new(&mut bus, 115200);
    let n0 = bus.event_count();
    // The hardware withholds the transmitter-empty bit for two polls.
    bus.feed_status(0);
    bus.feed_status(0);
    bus.feed_status(LSR_TX_EMPTY);
    u.sendc(&mut bus, 'A');
    assert_eq!(bus.event_count(), n0 + 4);
    assert_eq!(bus.event_at(n0), Event::Read(AUX_MU_LSR, 0));
    assert_eq!(bus.event_at(n0 + 1), Event::Read(AUX_MU_LSR, 0));
    assert_eq!(bus.event_at(n0 + 2), Event::Read(AUX_MU_LSR, LSR_TX_EMPTY));
    assert_eq!(bus.event_at(n0 + 3), Event::Write(AUX_MU_IO, 0x41));
    // No data write happened before the ready bit was observed.
    for i in n0..n0 + 3 {
        if let Event::Write(addr, _) = bus.event_at(i) {
            assert_ne!(addr, AUX_MU_IO);
        }
    }
}

#[test]
fn readc_returns_scripted_byte() {
    let mut bus = Bus::new();
    let u = Miniuart::new(&mut bus, 115200);
    bus.feed_status(LSR_RX_READY);
    bus.feed_rx(0x58);
    assert_eq!(u.readc(&mut bus), 'X');
}

#[test]
fn readc_polls_until_data_ready() {
    let mut bus = Bus::new();
    let u = Miniuart::new(&mut bus, 115200);
    bus.feed_status(0);
    bus.feed_status(LSR_RX_READY);
    bus.feed_rx(0x21);
    let n0 = bus.event_count();
    assert_eq!(u.readc(&mut bus), '!');
    assert_eq!(bus.event_at(n0), Event::Read(AUX_MU_LSR, 0));
    assert_eq!(bus.event_at(n0 + 1), Event::Read(AUX_MU_LSR, LSR_RX_READY));
    assert_eq!(bus.event_at(n0 + 2), Event::Read(AUX_MU_IO, 0x21));
}

#[test]
fn send_str_transmits_bytes_in_order() {
    let mut bus = Bus::new();
    let u = Miniuart::new(&mut bus, 115200);
    assert_eq!(bus.peek(AUX_MU_BAUD), 270);
    let n0 = bus.event_count();
    bus.feed_status(LSR_TX_EMPTY);
    bus.feed_status(LSR_TX_EMPTY);
    u.send_str(&mut bus, "AB");
    // Exactly two data-register writes, 0x41 then 0x42, each preceded by a
    // poll that observed the transmitter-empty bit.
    let mut data_writes: Vec<u32> = Vec::new();
    let mut ready_seen = false;
    for i in n0..bus.event_count() {
        match bus.event_at(i) {
            Event::Read(addr, val) => {
                if addr == AUX_MU_LSR && val & LSR_TX_EMPTY != 0 {
                    ready_seen = true;
                }
            }
            Event::Write(addr, val) => {
                if addr == AUX_MU_IO {
                    assert!(ready_seen);
                    data_writes.push(val);
                    ready_seen = false;
                }
            }
            Event::Settle(_) => {}
        }
    }
    assert_eq!(data_writes, vec![0x41, 0x42]);
}

#[test]
fn uart_new_programs_framing_and_divisor() {
    let mut bus = Bus::new();
    let u = UART::new(&mut bus, 115200);
    assert_eq!(u.baudrate, 115200);
    assert_eq!(u.tx.pin, 14);
    assert_eq!(u.rx.pin, 15);
    assert_eq!(bus.peek(AUX_ENABLE), 1);
    assert_eq!(bus.peek(AUX_MU_LCR), 0b11);
    assert_eq!(bus.peek(AUX_MU_CNTL), 0b11);
    assert_eq!(bus.peek(AUX_MU_BAUD), 270);
    assert_eq!(bus.peek(GPFSEL0 + 4), (2 << 12) | (2 << 15));
    // The setup ends by re-enabling the port and clearing both FIFOs.
    let n = bus.event_count();
    assert_eq!(bus.event_at(n - 2), Event::Write(AUX_MU_CNTL, 0b11));
    assert_eq!(bus.event_at(n - 1), Event::Write(AUX_MU_IIR, 0b110));
}

#[test]
fn uart_send_and_read_round_trip() {
    let mut bus = Bus::new();
    let u = UART::new(&mut bus, 115200);
    bus.feed_status(LSR_TX_EMPTY);
    u.send(&mut bus, 'Z');
    let n = bus.event_count();
    assert_eq!(bus.event_at(n - 1), Event::Write(AUX_MU_IO, 0x5A));
    bus.feed_status(LSR_RX_READY);
    bus.feed_rx(0x41);
    assert_eq!(u.read(&mut bus), 'A');
}
