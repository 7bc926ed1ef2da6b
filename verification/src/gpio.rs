//! GPIO pin controller: function-select multiplexing, pull-resistor
//! configuration, and digital output, driven entirely through [`Bus`]
//! accesses.
//!
//! Each function-select register multiplexes ten pins at three bits per pin,
//! so a mode change is a read-modify-write that must leave the other nine
//! fields untouched. The set/clear registers are write-1-to-set and
//! write-1-to-clear, so driving a pin needs no read-modify-write and cannot
//! disturb its neighbours. Pull configuration is a timing-sensitive staged
//! sequence: stage the code, settle, clock it onto the pin, settle, clear
//! both registers.

use vstd::prelude::*;

use crate::bus::{
    pin_level, read_effect, settle_effect, write_effect, Bus, BusView, Event, GPCLR0, GPFSEL0,
    GPPUD, GPPUDCLK0, GPSET0, NPINS, REG_LEV0, REG_PUD, REG_PUDCLK0,
};

verus! {

/// Settle delay, in no-op cycles, between the stages of a pull-resistor
/// update; a hardware clocking requirement, not a tunable.
pub const SETTLE_TICKS: u32 = 150;

/// Function a pin is multiplexed into. Each mode has a fixed 3-bit hardware
/// encoding, given by [`PinMode::spec_code`].
#[derive(Clone, Copy, PartialEq, Eq, Debug)]
pub enum PinMode {
    Input,
    Output,
    AltFunc5,
    AltFunc4,
    AltFunc0,
    AltFunc1,
    AltFunc2,
    AltFunc3,
}

impl PinMode {
    /// The mode's 3-bit field value in a function-select register. These
    /// equalities are fixed by the datasheet, not a free choice.
    pub open spec fn spec_code(self) -> u32 {
        match self {
            PinMode::Input => 0,
            PinMode::Output => 1,
            PinMode::AltFunc5 => 2,
            PinMode::AltFunc4 => 3,
            PinMode::AltFunc0 => 4,
            PinMode::AltFunc1 => 5,
            PinMode::AltFunc2 => 6,
            PinMode::AltFunc3 => 7,
        }
    }

    /// The mode's 3-bit field value in a function-select register.
    #[verifier::when_used_as_spec(spec_code)]
    pub fn code(self) -> (r: u32)
        ensures
            r == self.spec_code(),
    {
        match self {
            PinMode::Input => 0,
            PinMode::Output => 1,
            PinMode::AltFunc5 => 2,
            PinMode::AltFunc4 => 3,
            PinMode::AltFunc0 => 4,
            PinMode::AltFunc1 => 5,
            PinMode::AltFunc2 => 6,
            PinMode::AltFunc3 => 7,
        }
    }
}

/// Pull-resistor configuration of a pin, with its datasheet-defined staging
/// code.
#[derive(Clone, Copy, PartialEq, Eq, Debug)]
pub enum Pull {
    Neither,
    PullUp,
    PullDown,
}

impl Pull {
    /// The staging code written to the pull-control register.
    pub open spec fn spec_code(self) -> u32 {
        match self {
            Pull::Neither => 0,
            Pull::PullUp => 1,
            Pull::PullDown => 2,
        }
    }

    /// The staging code written to the pull-control register.
    #[verifier::when_used_as_spec(spec_code)]
    pub fn code(self) -> (r: u32)
        ensures
            r == self.spec_code(),
    {
        match self {
            Pull::Neither => 0,
            Pull::PullUp => 1,
            Pull::PullDown => 2,
        }
    }
}

/// Logical output state of a pin, tracked in software only.
#[derive(Clone, Copy, PartialEq, Eq, Debug)]
pub enum PinState {
    On,
    Off,
}

/// An owned GPIO pin: its index, the mode and pull it was configured with,
/// and its software-tracked output state.
pub struct GPIO {
    pub pin: u32,
    pub mode: PinMode,
    pub state: PinState,
    pub pull: Pull,
}

/// Address of the function-select register multiplexing `pin`.
pub open spec fn fsel_addr(pin: u32) -> u32 {
    (GPFSEL0 + 4 * (pin / 10)) as u32
}

/// Address of the output-set register covering `pin`.
pub open spec fn set_addr(pin: u32) -> u32 {
    (GPSET0 + 4 * (pin / 32)) as u32
}

/// Address of the output-clear register covering `pin`.
pub open spec fn clr_addr(pin: u32) -> u32 {
    (GPCLR0 + 4 * (pin / 32)) as u32
}

/// Address of the pull-clock register covering `pin`.
pub open spec fn pudclk_addr(pin: u32) -> u32 {
    (GPPUDCLK0 + 4 * (pin / 32)) as u32
}

/// The single-bit mask of `pin` within its 32-pin register.
pub open spec fn pin_mask(pin: u32) -> u32 {
    1u32 << ((pin % 32) as u32)
}

/// Bit offset of the pin's 3-bit field within its function-select register.
pub open spec fn fsel_shift(pin: u32) -> u32 {
    (3 * (pin % 10)) as u32
}

/// The 3-bit function-select field of `pin` in the latched register state.
pub open spec fn fsel_field(v: BusView, pin: u32) -> u32 {
    (v.regs[(pin / 10) as int] >> fsel_shift(pin)) & 7
}

/// New value of the function-select register of `pin`: the pin's 3-bit field
/// cleared, then the mode code put in its place.
pub open spec fn fsel_rmw(word: u32, pin: u32, mode: PinMode) -> u32 {
    (word & !(7u32 << fsel_shift(pin))) | (mode.spec_code() << fsel_shift(pin))
}

/// Bus state after a mode change of `pin`: one read and one write of the
/// pin's function-select register.
pub open spec fn set_mode_effect(v: BusView, pin: u32, mode: PinMode) -> BusView {
    let a = fsel_addr(pin);
    write_effect(read_effect(v, a), a, fsel_rmw(v.regs[(pin / 10) as int], pin, mode))
}

/// Bus state after the staged pull-resistor sequence for `pin`.
pub open spec fn set_pull_effect(v: BusView, pin: u32, pull: Pull) -> BusView {
    let v1 = write_effect(v, GPPUD, pull.spec_code());
    let v2 = settle_effect(v1, SETTLE_TICKS);
    let v3 = write_effect(v2, pudclk_addr(pin), pin_mask(pin));
    let v4 = settle_effect(v3, SETTLE_TICKS);
    let v5 = write_effect(v4, GPPUD, 0);
    write_effect(v5, pudclk_addr(pin), 0)
}

/// The exact accesses of the staged pull-resistor sequence, in order: stage
/// the pull code, settle, clock it onto the pin, settle, clear both
/// registers.
pub open spec fn set_pull_events(pin: u32, pull: Pull) -> Seq<Event> {
    seq![
        Event::Write(GPPUD, pull.spec_code()),
        Event::Settle(SETTLE_TICKS),
        Event::Write(pudclk_addr(pin), pin_mask(pin)),
        Event::Settle(SETTLE_TICKS),
        Event::Write(GPPUD, 0),
        Event::Write(pudclk_addr(pin), 0),
    ]
}

/// Bus state after constructing a pin: mode change, then pull sequence.
pub open spec fn gpio_new_effect(v: BusView, pin: u32, mode: PinMode, pull: Pull) -> BusView {
    set_pull_effect(set_mode_effect(v, pin, mode), pin, pull)
}

/// Bus state after driving `pin` high: one write of its single-bit mask to
/// the covering set register.
pub open spec fn on_effect(v: BusView, pin: u32) -> BusView {
    write_effect(v, set_addr(pin), pin_mask(pin))
}

/// Bus state after driving `pin` low: one write of its single-bit mask to
/// the covering clear register.
pub open spec fn off_effect(v: BusView, pin: u32) -> BusView {
    write_effect(v, clr_addr(pin), pin_mask(pin))
}

/// Reading and rewriting one 3-bit field of a register leaves that field at
/// the new code and every other 3-bit field at its old value.
proof fn lemma_field_rmw(w: u32, c: u32, sh: u32, th: u32)
    by (bit_vector)
    requires
        sh < 30,
        th < 30,
        sh % 3 == 0,
        th % 3 == 0,
        c < 8,
    ensures
        (((w & !(7u32 << sh)) | (c << sh)) >> sh) & 7 == c,
        sh != th ==> (((w & !(7u32 << sh)) | (c << sh)) >> th) & 7 == (w >> th) & 7,
{
}

/// Setting or clearing one bit of a word drives exactly that bit and leaves
/// every other bit position unchanged.
proof fn lemma_level_bits(w: u32, i: u32, j: u32)
    by (bit_vector)
    requires
        i < 32,
        j < 32,
    ensures
        ((w | (1u32 << i)) >> i) & 1 == 1,
        i != j ==> ((w | (1u32 << i)) >> j) & 1 == (w >> j) & 1,
        ((w & !(1u32 << i)) >> i) & 1 == 0,
        i != j ==> ((w & !(1u32 << i)) >> j) & 1 == (w >> j) & 1,
{
}

impl GPIO {
    /// The pin index lies in the range the hardware encoding admits.
    pub open spec fn wf(self) -> bool {
        self.pin < NPINS
    }

    /// Configure a pin's function-select field and pull resistor, and take
    /// ownership of it, initially off.
    pub fn new(bus: &mut Bus, pin: u32, mode: PinMode, pull: Pull) -> (g: GPIO)
        requires
            old(bus)@.wf(),
            pin < NPINS,
        ensures
            final(bus)@.wf(),
            g.wf(),
            g.pin == pin,
            g.mode == mode,
            g.pull == pull,
            g.state == PinState::Off,
            final(bus)@ == gpio_new_effect(old(bus)@, pin, mode, pull),
            fsel_field(final(bus)@, pin) == mode.spec_code(),
            forall|q: u32|
                q < NPINS && q != pin ==> fsel_field(final(bus)@, q) == fsel_field(old(bus)@, q),
            forall|q: u32| q < NPINS ==> pin_level(final(bus)@, q) == pin_level(old(bus)@, q),
    {
        Self::set_mode(bus, pin, mode);
        Self::set_pull(bus, pin, pull);
        GPIO { pin, mode, state: PinState::Off, pull }
    }

    /// Multiplex `pin` into `mode`: read the covering function-select
    /// register, replace the pin's 3-bit field with the mode code, write the
    /// register back. After the call the pin's field holds the code and
    /// every other pin's field in the whole bank is unchanged.
    pub fn set_mode(bus: &mut Bus, pin: u32, mode: PinMode)
        requires
            old(bus)@.wf(),
            pin < NPINS,
        ensures
            final(bus)@.wf(),
            final(bus)@ == set_mode_effect(old(bus)@, pin, mode),
            final(bus)@.regs == old(bus)@.regs.update(
                (pin / 10) as int,
                fsel_rmw(old(bus)@.regs[(pin / 10) as int], pin, mode),
            ),
            fsel_field(final(bus)@, pin) == mode.spec_code(),
            forall|q: u32|
                q < NPINS && q != pin ==> fsel_field(final(bus)@, q) == fsel_field(old(bus)@, q),
            forall|q: u32| q < NPINS ==> pin_level(final(bus)@, q) == pin_level(old(bus)@, q),
            final(bus)@.log == old(bus)@.log + seq![
                Event::Read(fsel_addr(pin), old(bus)@.regs[(pin / 10) as int]),
                Event::Write(
                    fsel_addr(pin),
                    fsel_rmw(old(bus)@.regs[(pin / 10) as int], pin, mode),
                ),
            ],
    {
        let ghost v0 = old(bus)@;
        let chunk: u32 = pin % 10;
        let a: u32 = GPFSEL0 + 4 * (pin / 10);
        proof {
            assert(a == fsel_addr(pin));
            assert(crate::bus::stored_index(a) == (pin / 10) as int) by {
                assert((4 * ((pin / 10) as int)) / 4 == (pin / 10) as int) by (nonlinear_arith);
            }
        }
        let old_val = bus.read(a);
        let newval = (old_val & !(0b111u32 << (3 * chunk))) | (mode.code() << (3 * chunk));
        bus.write(a, newval);
        proof {
            let ghost w = v0.regs[(pin / 10) as int];
            let ghost c = mode.spec_code();
            let ghost sh = fsel_shift(pin);
            assert(c < 8);
            assert(newval == fsel_rmw(w, pin, mode));
            assert(bus@ =~= set_mode_effect(v0, pin, mode));
            lemma_field_rmw(w, c, sh, sh);
            assert forall|q: u32|
                q < NPINS && q != pin implies fsel_field(bus@, q) == fsel_field(v0, q) by {
                if q / 10 == pin / 10 {
                    assert(q % 10 != pin % 10);
                    lemma_field_rmw(w, c, sh, fsel_shift(q));
                } else {
                    assert(bus@.regs[(q / 10) as int] == v0.regs[(q / 10) as int]);
                }
            }
            assert forall|q: u32|
                q < NPINS implies pin_level(bus@, q) == pin_level(v0, q) by {
                assert(REG_LEV0 as int + (q / 32) as int != (pin / 10) as int);
            }
            assert(bus@.log =~= v0.log + seq![
                Event::Read(fsel_addr(pin), w),
                Event::Write(fsel_addr(pin), fsel_rmw(w, pin, mode)),
            ]);
        }
    }

    /// Run the staged pull-resistor sequence for `pin`: stage the pull code,
    /// settle, clock it onto the pin, settle, then clear the control and
    /// clock registers so the next pull operation on any pin starts clean.
    /// Exactly four register values are written, in that order, with a
    /// settle delay after each of the first two.
    pub fn set_pull(bus: &mut Bus, pin: u32, pull: Pull)
        requires
            old(bus)@.wf(),
            pin < NPINS,
        ensures
            final(bus)@.wf(),
            final(bus)@ == set_pull_effect(old(bus)@, pin, pull),
            final(bus)@.regs == old(bus)@.regs.update(REG_PUD as int, 0u32).update(
                REG_PUDCLK0 as int + (pin / 32) as int,
                0u32,
            ),
            forall|q: u32| q < NPINS ==> fsel_field(final(bus)@, q) == fsel_field(old(bus)@, q),
            forall|q: u32| q < NPINS ==> pin_level(final(bus)@, q) == pin_level(old(bus)@, q),
            final(bus)@.log == old(bus)@.log + set_pull_events(pin, pull),
    {
        let ghost v0 = old(bus)@;
        let a: u32 = GPPUDCLK0 + 4 * (pin / 32);
        proof {
            assert(a == pudclk_addr(pin));
        }
        bus.write(GPPUD, pull.code());
        bus.settle(SETTLE_TICKS);
        bus.write(a, 1u32 << (pin % 32));
        bus.settle(SETTLE_TICKS);
        bus.write(GPPUD, 0);
        bus.write(a, 0);
        proof {
            assert(bus@ =~= set_pull_effect(v0, pin, pull));
            assert(bus@.regs =~= v0.regs.update(REG_PUD as int, 0u32).update(
                REG_PUDCLK0 as int + (pin / 32) as int,
                0u32,
            ));
            assert(bus@.log =~= v0.log + set_pull_events(pin, pull));
        }
    }

    /// Drive the pin high by writing its single-bit mask to the covering
    /// write-1-to-set register; zero mask bits leave the other pins alone,
    /// so no read-modify-write is needed.
    pub fn on(&mut self, bus: &mut Bus)
        requires
            old(self).wf(),
            old(bus)@.wf(),
        ensures
            final(self).wf(),
            final(self).pin == old(self).pin,
            final(self).mode == old(self).mode,
            final(self).pull == old(self).pull,
            final(self).state == PinState::On,
            final(bus)@.wf(),
            final(bus)@ == on_effect(old(bus)@, old(self).pin),
            pin_level(final(bus)@, old(self).pin),
            forall|q: u32|
                q < NPINS && q != old(self).pin ==> pin_level(final(bus)@, q) == pin_level(
                    old(bus)@,
                    q,
                ),
            forall|q: u32| q < NPINS ==> fsel_field(final(bus)@, q) == fsel_field(old(bus)@, q),
            final(bus)@.log == old(bus)@.log.push(
                Event::Write(set_addr(old(self).pin), pin_mask(old(self).pin)),
            ),
    {
        let ghost v0 = old(bus)@;
        let a: u32 = GPSET0 + 4 * (self.pin / 32);
        proof {
            assert(a == set_addr(self.pin));
        }
        bus.write(a, 1u32 << (self.pin % 32));
        self.state = PinState::On;
        proof {
            assert(bus@ =~= on_effect(v0, self.pin));
            let ghost p = self.pin;
            let ghost w = v0.regs[REG_LEV0 as int + (p / 32) as int];
            lemma_level_bits(w, (p % 32) as u32, (p % 32) as u32);
            assert(pin_level(bus@, p));
            assert forall|q: u32|
                q < NPINS && q != p implies pin_level(bus@, q) == pin_level(v0, q) by {
                if q / 32 == p / 32 {
                    assert(q % 32 != p % 32);
                    lemma_level_bits(w, (p % 32) as u32, (q % 32) as u32);
                }
            }
        }
    }

    /// Drive the pin low by writing its single-bit mask to the covering
    /// write-1-to-clear register.
    pub fn off(&mut self, bus: &mut Bus)
        requires
            old(self).wf(),
            old(bus)@.wf(),
        ensures
            final(self).wf(),
            final(self).pin == old(self).pin,
            final(self).mode == old(self).mode,
            final(self).pull == old(self).pull,
            final(self).state == PinState::Off,
            final(bus)@.wf(),
            final(bus)@ == off_effect(old(bus)@, old(self).pin),
            !pin_level(final(bus)@, old(self).pin),
            forall|q: u32|
                q < NPINS && q != old(self).pin ==> pin_level(final(bus)@, q) == pin_level(
                    old(bus)@,
                    q,
                ),
            forall|q: u32| q < NPINS ==> fsel_field(final(bus)@, q) == fsel_field(old(bus)@, q),
            final(bus)@.log == old(bus)@.log.push(
                Event::Write(clr_addr(old(self).pin), pin_mask(old(self).pin)),
            ),
    {
        let ghost v0 = old(bus)@;
        let a: u32 = GPCLR0 + 4 * (self.pin / 32);
        proof {
            assert(a == clr_addr(self.pin));
        }
        bus.write(a, 1u32 << (self.pin % 32));
        self.state = PinState::Off;
        proof {
            assert(bus@ =~= off_effect(v0, self.pin));
            let ghost p = self.pin;
            let ghost w = v0.regs[REG_LEV0 as int + (p / 32) as int];
            lemma_level_bits(w, (p % 32) as u32, (p % 32) as u32);
            assert(!pin_level(bus@, p));
            assert forall|q: u32|
                q < NPINS && q != p implies pin_level(bus@, q) == pin_level(v0, q) by {
                if q / 32 == p / 32 {
                    assert(q % 32 != p % 32);
                    lemma_level_bits(w, (p % 32) as u32, (q % 32) as u32);
                }
            }
        }
    }

    /// Reconfigure the pin's pull resistor to pull-down. The stored pull
    /// state is updated first, then the hardware sequence runs; all three
    /// reconfiguration calls use this one order.
    pub fn pull_down(&mut self, bus: &mut Bus)
        requires
            old(self).wf(),
            old(bus)@.wf(),
        ensures
            final(self).wf(),
            final(self).pin == old(self).pin,
            final(self).mode == old(self).mode,
            final(self).state == old(self).state,
            final(self).pull == Pull::PullDown,
            final(bus)@.wf(),
            final(bus)@ == set_pull_effect(old(bus)@, old(self).pin, Pull::PullDown),
            final(bus)@.log == old(bus)@.log + set_pull_events(old(self).pin, Pull::PullDown),
    {
        self.pull = Pull::PullDown;
        GPIO::set_pull(bus, self.pin, Pull::PullDown);
    }

    /// Reconfigure the pin's pull resistor to pull-up, in the same
    /// update-then-apply order as the other reconfiguration calls.
    pub fn pull_up(&mut self, bus: &mut Bus)
        requires
            old(self).wf(),
            old(bus)@.wf(),
        ensures
            final(self).wf(),
            final(self).pin == old(self).pin,
            final(self).mode == old(self).mode,
            final(self).state == old(self).state,
            final(self).pull == Pull::PullUp,
            final(bus)@.wf(),
            final(bus)@ == set_pull_effect(old(bus)@, old(self).pin, Pull::PullUp),
            final(bus)@.log == old(bus)@.log + set_pull_events(old(self).pin, Pull::PullUp),
    {
        self.pull = Pull::PullUp;
        GPIO::set_pull(bus, self.pin, Pull::PullUp);
    }

    /// Disable the pin's pull resistor, in the same update-then-apply order
    /// as the other reconfiguration calls.
    pub fn pull_neither(&mut self, bus: &mut Bus)
        requires
            old(self).wf(),
            old(bus)@.wf(),
        ensures
            final(self).wf(),
            final(self).pin == old(self).pin,
            final(self).mode == old(self).mode,
            final(self).state == old(self).state,
            final(self).pull == Pull::Neither,
            final(bus)@.wf(),
            final(bus)@ == set_pull_effect(old(bus)@, old(self).pin, Pull::Neither),
            final(bus)@.log == old(bus)@.log + set_pull_events(old(self).pin, Pull::Neither),
    {
        self.pull = Pull::Neither;
        GPIO::set_pull(bus, self.pin, Pull::Neither);
    }
}

/// Law: driving one pin high and then low again leaves the output level of
/// every other pin exactly as it was, and leaves the driven pin low.
pub proof fn lemma_on_off_leaves_others(v: BusView, p: u32, q: u32)
    requires
        v.wf(),
        p < NPINS,
        q < NPINS,
        q != p,
    ensures
        pin_level(off_effect(on_effect(v, p), p), q) == pin_level(v, q),
        !pin_level(off_effect(on_effect(v, p), p), p),
{
    let w = v.regs[REG_LEV0 as int + (p / 32) as int];
    let w1 = w | pin_mask(p);
    lemma_level_bits(w, (p % 32) as u32, (q % 32) as u32);
    lemma_level_bits(w1, (p % 32) as u32, (q % 32) as u32);
    if q / 32 == p / 32 {
        assert(q % 32 != p % 32);
    }
}

} // verus!
