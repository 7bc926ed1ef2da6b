use bmrp::bus::{Bus, Event, GPCLR1, GPFSEL0, GPFSEL5, GPPUD, GPPUDCLK0, GPPUDCLK1, GPSET0, GPSET1};
use bmrp::gpio::{PinMode, PinState, Pull, GPIO, SETTLE_TICKS};

#[test]
fn set_mode_writes_field_at_offset() {
    let mut bus = Bus::new();
    // Pin 17 lives in function-select register 1, at bit offset 3 * 7 = 21.
    GPIO::set_mode(&mut bus, 17, PinMode::Output);
    assert_eq!(bus.peek(GPFSEL0 + 4), 1 << 21);
}

#[test]
fn set_mode_leaves_other_fields_alone() {
    let mut bus = Bus::new();
    // Pins 12 and 17 share function-select register 1.
    GPIO::set_mode(&mut bus, 12, PinMode::AltFunc0);
    assert_eq!(bus.peek(GPFSEL0 + 4), 4 << 6);
    GPIO::set_mode(&mut bus, 17, PinMode::Output);
    assert_eq!(bus.peek(GPFSEL0 + 4), (4 << 6) | (1 << 21));
    // Rewriting pin 17 back to input clears only its own field.
    GPIO::set_mode(&mut bus, 17, PinMode::Input);
    assert_eq!(bus.peek(GPFSEL0 + 4), 4 << 6);
    // Registers of other banks were never touched.
    assert_eq!(bus.peek(GPFSEL0), 0);
    assert_eq!(bus.peek(GPFSEL5), 0);
}

#[test]
fn set_mode_is_one_read_one_write() {
    let mut bus = Bus::new();
    GPIO::set_mode(&mut bus, 3, PinMode::AltFunc5);
    assert_eq!(bus.event_count(), 2);
    assert_eq!(bus.event_at(0), Event::Read(GPFSEL0, 0));
    assert_eq!(bus.event_at(1), Event::Write(GPFSEL0, 2 << 9));
}

#[test]
fn mode_codes_match_datasheet() {
    assert_eq!(PinMode::Input.code(), 0);
    assert_eq!(PinMode::Output.code(), 1);
    assert_eq!(PinMode::AltFunc5.code(), 2);
    assert_eq!(PinMode::AltFunc4.code(), 3);
    assert_eq!(PinMode::AltFunc0.code(), 4);
    assert_eq!(PinMode::AltFunc1.code(), 5);
    assert_eq!(PinMode::AltFunc2.code(), 6);
    assert_eq!(PinMode::AltFunc3.code(), 7);
    assert_eq!(Pull::Neither.code(), 0);
    assert_eq!(Pull::PullUp.code(), 1);
    assert_eq!(Pull::PullDown.code(), 2);
}

#[test]
fn on_off_do_not_disturb_neighbours() {
    let mut bus = Bus::new();
    let mut g20 = GPIO::new(&mut bus, 20, PinMode::Output, Pull::Neither);
    let mut g21 = GPIO::new(&mut bus, 21, PinMode::Output, Pull::Neither);
    g21.on(&mut bus);
    assert!(bus.level(21));
    assert!(!bus.level(20));
    // Toggling pin 20 must leave pin 21, which shares the register, as is.
    g20.on(&mut bus);
    assert!(bus.level(20));
    assert!(bus.level(21));
    g20.off(&mut bus);
    assert!(!bus.level(20));
    assert!(bus.level(21));
    assert_eq!(g20.state, PinState::Off);
    assert_eq!(g21.state, PinState::On);
}

#[test]
fn on_off_use_set_and_clear_registers() {
    let mut bus = Bus::new();
    let mut g = GPIO::new(&mut bus, 33, PinMode::Output, Pull::Neither);
    let n0 = bus.event_count();
    g.on(&mut bus);
    assert!(bus.level(33));
    g.off(&mut bus);
    assert!(!bus.level(33));
    // Pin 33 is bit 1 of the second set/clear registers.
    assert_eq!(bus.event_count(), n0 + 2);
    assert_eq!(bus.event_at(n0), Event::Write(GPSET1, 1 << 1));
    assert_eq!(bus.event_at(n0 + 1), Event::Write(GPCLR1, 1 << 1));
}

#[test]
fn pull_sequence_writes_four_values_in_order() {
    let mut bus = Bus::new();
    GPIO::set_pull(&mut bus, 2, Pull::PullUp);
    assert_eq!(bus.event_count(), 6);
    assert_eq!(bus.event_at(0), Event::Write(GPPUD, 1));
    assert_eq!(bus.event_at(1), Event::Settle(SETTLE_TICKS));
    assert_eq!(bus.event_at(2), Event::Write(GPPUDCLK0, 1 << 2));
    assert_eq!(bus.event_at(3), Event::Settle(SETTLE_TICKS));
    assert_eq!(bus.event_at(4), Event::Write(GPPUD, 0));
    assert_eq!(bus.event_at(5), Event::Write(GPPUDCLK0, 0));
    // Exactly four writes, the staged code and clock bit then the two clears.
    let mut writes: Vec<(u32, u32)> = Vec::new();
    for i in 0..bus.event_count() {
        if let Event::Write(a, v) = bus.event_at(i) {
            writes.push((a, v));
        }
    }
    assert_eq!(
        writes,
        vec![(GPPUD, 1), (GPPUDCLK0, 1 << 2), (GPPUD, 0), (GPPUDCLK0, 0)]
    );
}

#[test]
fn pull_sequence_clocks_high_bank_pins() {
    let mut bus = Bus::new();
    GPIO::set_pull(&mut bus, 53, Pull::PullDown);
    assert_eq!(bus.event_at(0), Event::Write(GPPUD, 2));
    assert_eq!(bus.event_at(2), Event::Write(GPPUDCLK1, 1 << 21));
    assert_eq!(bus.event_at(5), Event::Write(GPPUDCLK1, 0));
}

#[test]
fn pull_reconfiguration_updates_state_then_hardware() {
    let mut bus = Bus::new();
    let mut g = GPIO::new(&mut bus, 7, PinMode::Input, Pull::Neither);
    assert_eq!(g.pull, Pull::Neither);
    let n0 = bus.event_count();
    g.pull_up(&mut bus);
    assert_eq!(g.pull, Pull::PullUp);
    assert_eq!(bus.event_at(n0), Event::Write(GPPUD, 1));
    g.pull_down(&mut bus);
    assert_eq!(g.pull, Pull::PullDown);
    assert_eq!(bus.event_at(n0 + 6), Event::Write(GPPUD, 2));
    g.pull_neither(&mut bus);
    assert_eq!(g.pull, Pull::Neither);
    assert_eq!(bus.event_at(n0 + 12), Event::Write(GPPUD, 0));
    assert_eq!(bus.event_count(), n0 + 18);
}

#[test]
fn gpio_new_configures_mode_then_pull() {
    let mut bus = Bus::new();
    let g = GPIO::new(&mut bus, 14, PinMode::AltFunc5, Pull::Neither);
    assert_eq!(g.pin, 14);
    assert_eq!(g.mode, PinMode::AltFunc5);
    assert_eq!(g.pull, Pull::Neither);
    assert_eq!(g.state, PinState::Off);
    // One read-modify-write of the function-select register, then the six
    // accesses of the pull sequence.
    assert_eq!(bus.event_count(), 8);
    assert_eq!(bus.event_at(0), Event::Read(GPFSEL0 + 4, 0));
    assert_eq!(bus.event_at(1), Event::Write(GPFSEL0 + 4, 2 << 12));
    assert_eq!(bus.event_at(2), Event::Write(GPPUD, 0));
    assert_eq!(bus.peek(GPFSEL0 + 4), 2 << 12);
    assert_eq!(bus.peek(GPSET0), 0);
}
